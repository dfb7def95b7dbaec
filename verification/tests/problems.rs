use rocket_rest_quickstart::auth::Auth;
use rocket_rest_quickstart::database::DbError;
use rocket_rest_quickstart::form::{Field, FieldError};
use rocket_rest_quickstart::models::problem::{
    NewProblem, OwnedProblem, Problem, ProblemData, UpdateProblem,
};
use rocket_rest_quickstart::models::Timestamp;
use rocket_rest_quickstart::routes::problems::{self as handlers, create_problem, get_problem};
use rocket_rest_quickstart::routes::{db_error_status, DbResult};
use rocket_rest_quickstart::status;

const PROBLEM_GRADE: i32 = 5;

fn stored(id: i32, title: &str, grade: i32, creator: i32) -> Problem {
    Problem {
        id,
        title: title.to_string(),
        grade,
        rating: None,
        creator,
        created_at: Timestamp { secs: 100, nanos: 0 },
        updated_at: Timestamp { secs: 100, nanos: 0 },
    }
}

/// The status of a creation request with this title, by the signed-in
/// user, and the created problem when there is one.
fn create(title: &str, user: Auth, id: i32) -> (u16, Option<(String, Problem)>) {
    let data = ProblemData { title, grade: PROBLEM_GRADE };
    let row = match handlers::problem_row(&data, user) {
        Ok(row) => row,
        Err(errors) => return (errors.status(), None),
    };
    let inserted: DbResult<Problem> = Ok(stored(id, &row.title, row.grade, row.creator));
    match create_problem(inserted) {
        Ok(created) => (created.status, Some((created.location, created.problem))),
        Err(e) => (db_error_status(&e), None),
    }
}

#[test]
fn create_problem_creates_and_persists_problem() {
    let user = Auth(1);

    // Returns a 422 for invalid input
    let title = "test title too long for validation";
    let (response, _) = create(title, user, 1);
    assert_eq!(response, status::UNPROCESSABLE_ENTITY);

    let title = "test get_problem";
    let (response, created) = create(title, user, 2);
    assert_eq!(response, status::CREATED);
    let (location, new_problem) = created.unwrap();
    assert!(location.starts_with("/api/problems/"));
    assert_eq!(location, "/api/problems/2");

    let problem = get_problem(Ok(new_problem)).expect("found");
    assert_eq!(problem.title, title);
    assert_eq!(problem.grade, PROBLEM_GRADE);
    assert_eq!(problem.creator, 1);
}

#[test]
fn delete_problem() {
    let response = handlers::delete_problem(Ok(1)).expect("no database error");
    assert_eq!(response, Some(()));
}

#[test]
fn cannot_delete_or_update_when_not_creator() {
    let creator = Auth(1);
    let other = Auth(2);
    let problem = stored(9, "test not creator", PROBLEM_GRADE, creator.0);

    // The rows that the other user's update or delete may touch exclude the
    // problem, so the update finds no row and the delete removes none.
    let owned = OwnedProblem::new(problem.id, other);
    assert_eq!(owned, OwnedProblem { id: 9, creator: 2 });
    assert!(owned.creator != problem.creator);

    // User shouldn't be able to update other users problems
    let updated: DbResult<Problem> = Err(DbError::NotFound);
    let response = db_error_status(&updated.unwrap_err());
    assert_eq!(response, status::INTERNAL_SERVER_ERROR);

    // User shouldn't be able to delete other users problems
    let response = handlers::delete_problem(Ok(0)).expect("no database error");
    assert_eq!(response, None);
}

#[test]
fn problem_form_rules() {
    assert!(ProblemData { title: "ok", grade: 0 }.validate().is_ok());
    assert!(ProblemData { title: "ok", grade: 19 }.validate().is_ok());
    let errors = ProblemData { title: "x", grade: 20 }.validate().unwrap_err();
    assert_eq!(errors.status(), 422);
    assert_eq!(errors.errors.len(), 2);
    assert_eq!(errors.errors[0].field, Field::Title);
    assert_eq!(errors.errors[0].kind, FieldError::InvalidLength { min: 2, max: 25 });
    assert_eq!(errors.errors[1].field, Field::Grade);
    assert_eq!(errors.errors[1].kind, FieldError::OutOfRange { start: 0, end: 19 });
    assert!(ProblemData { title: "okay", grade: -1 }.validate().is_err());
    assert!(ProblemData { title: &"t".repeat(25), grade: 3 }.validate().is_ok());
}

#[test]
fn update_and_new_problem_carry_the_form() {
    let data = ProblemData { title: "updated_problem", grade: 13 };
    let update = UpdateProblem::new(&data);
    assert_eq!(update.title, "updated_problem");
    assert_eq!(update.grade, 13);
    let row = NewProblem::new("new", 4, 17);
    assert_eq!(row.title, "new");
    assert_eq!(row.grade, 4);
    assert_eq!(row.creator, 17);
}

#[test]
fn failed_lookups_and_deletes() {
    assert!(get_problem(Err(DbError::NotFound)).is_none());
    assert_eq!(handlers::delete_problem(Ok(2)).expect("no database error"), None);
    assert!(handlers::delete_problem(Err(DbError::Other { message: "down".to_string() })).is_err());
    let created = create_problem(Err(DbError::Other { message: "down".to_string() }));
    assert!(created.is_err());
}

#[test]
fn invalid_forms_give_no_row_or_update() {
    let long = ProblemData { title: "test title too long for validation", grade: 5 };
    let errors = handlers::problem_row(&long, Auth(1)).unwrap_err();
    assert_eq!(errors.status(), 422);
    assert_eq!(errors.errors.len(), 1);
    assert!(handlers::problem_update(&long).is_err());
    let bad_grade = ProblemData { title: "ok", grade: 20 };
    assert!(handlers::problem_row(&bad_grade, Auth(1)).is_err());
    assert!(handlers::problem_update(&bad_grade).is_err());

    let good = ProblemData { title: "updated_problem", grade: 13 };
    let row = handlers::problem_row(&good, Auth(4)).unwrap();
    assert_eq!((row.title.as_str(), row.grade, row.creator), ("updated_problem", 13, 4));
    let update = handlers::problem_update(&good).unwrap();
    assert_eq!((update.title.as_str(), update.grade), ("updated_problem", 13));
}

#[test]
fn listing_and_update_answers_pass_results_through() {
    let listed = handlers::get_problems(Ok(vec![stored(2, "b", 3, 1), stored(1, "a", 4, 1)]))
        .expect("listed");
    assert_eq!(listed.iter().map(|p| p.id).collect::<Vec<_>>(), vec![2, 1]);
    assert!(handlers::get_problems(Err(DbError::Other { message: "x".to_string() })).is_err());
    let updated = handlers::update_problem(Ok(stored(3, "new", 13, 1))).expect("updated");
    assert_eq!(updated.title, "new");
    let refused = handlers::update_problem(Err(DbError::NotFound)).unwrap_err();
    assert_eq!(db_error_status(&refused), 500);
}
