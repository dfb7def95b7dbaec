//! Climbing problems: the stored record, the form that creates or updates
//! one, and the values written to the table.
use vstd::prelude::*;

use crate::auth::Auth;
use crate::form::{
    byte_len, collect, len_errors, range_errors, validate_len, validate_range, Field, FieldError,
    FormError, FormErrors,
};
use crate::models::Timestamp;

verus! {

/// A stored problem.
#[derive(Debug)]
pub struct Problem {
    pub id: i32,
    pub title: String,
    pub grade: i32,
    pub rating: Option<i32>,
    pub creator: i32,
    pub created_at: Timestamp,
    pub updated_at: Timestamp,
}

/// The form that creates or updates a problem.
#[derive(Debug)]
pub struct ProblemData<'r> {
    pub title: &'r str,
    pub grade: i32,
}

/// The least and greatest length in bytes of a problem's title.
pub const TITLE_MIN_LEN: u64 = 2;
pub const TITLE_MAX_LEN: u64 = 25;

/// The lowest and highest grade of a problem.
pub const GRADE_MIN: i64 = 0;
pub const GRADE_MAX: i64 = 19;

/// The errors that the problem form gives: the title must be 2 to 25 bytes
/// long, the grade within 0..=19.
pub open spec fn problem_form_errors(title: Seq<char>, grade: i32) -> Seq<FormError> {
    len_errors(Field::Title, byte_len(title), TITLE_MIN_LEN, TITLE_MAX_LEN) + range_errors(
        Field::Grade,
        grade as int,
        GRADE_MIN,
        GRADE_MAX,
    )
}

impl<'r> ProblemData<'r> {
    /// Checks the form's rules; a refused form lists each broken rule in
    /// the order of the fields.
    pub fn validate(&self) -> (r: Result<(), FormErrors>)
        ensures
            r is Ok <==> problem_form_errors(self.title@, self.grade).len() == 0,
            r matches Err(e) ==> e.errors@ == problem_form_errors(self.title@, self.grade),
            r is Ok <==> (2 <= byte_len(self.title@) && byte_len(self.title@) <= 25 && 0
                <= self.grade && self.grade <= 19),
    {
        let mut errors: Vec<FormError> = Vec::new();
        collect(&mut errors, Field::Title, validate_len(self.title, TITLE_MIN_LEN, TITLE_MAX_LEN));
        collect(&mut errors, Field::Grade, validate_range(self.grade, GRADE_MIN, GRADE_MAX));
        assert(errors@ =~= problem_form_errors(self.title@, self.grade));
        if errors.len() == 0 {
            Ok(())
        } else {
            Err(FormErrors { errors })
        }
    }
}

/// A problem form is accepted exactly when its title is 2 to 25 bytes long
/// and its grade lies in 0..=19; a title of another length is refused first,
/// with the length rule 2..=25, and a grade outside 0..=19 last, with the
/// range rule 0..=19.
pub proof fn law_problem_form_rules(title: Seq<char>, grade: i32)
    ensures
        problem_form_errors(title, grade).len() == 0 <==> (2 <= byte_len(title) && byte_len(title)
            <= 25 && 0 <= grade && grade <= 19),
        !(2 <= byte_len(title) && byte_len(title) <= 25) ==> problem_form_errors(title, grade)[0]
            == (FormError {
            field: Field::Title,
            kind: FieldError::InvalidLength { min: 2, max: 25 },
        }),
        !(0 <= grade && grade <= 19) ==> problem_form_errors(title, grade).last() == (FormError {
            field: Field::Grade,
            kind: FieldError::OutOfRange { start: 0, end: 19 },
        }),
{
}

/// The values of a new problem's row.
#[derive(Debug)]
pub struct NewProblem {
    pub title: String,
    pub grade: i32,
    pub creator: i32,
}

impl NewProblem {
    /// A new problem with this title and grade, created by `creator`.
    pub fn new(title: &str, grade: i32, creator: i32) -> (r: Self)
        ensures
            r.title@ == title@,
            r.grade == grade,
            r.creator == creator,
    {
        NewProblem { title: String::from_str(title), grade, creator }
    }
}

/// The new values of an updated problem's row.
#[derive(Debug)]
pub struct UpdateProblem {
    pub title: String,
    pub grade: i32,
}

impl UpdateProblem {
    /// The update that the problem form asks for.
    pub fn new(data: &ProblemData) -> (r: Self)
        ensures
            r.title@ == data.title@,
            r.grade == data.grade,
    {
        UpdateProblem { title: String::from_str(data.title), grade: data.grade }
    }
}

/// The rows that an update or a delete of problem `id` by `user` may touch:
/// the row with that id, and only if `user` created it.
#[derive(Clone, Copy, Debug, PartialEq, Eq, Structural)]
pub struct OwnedProblem {
    pub id: i32,
    pub creator: i32,
}

impl OwnedProblem {
    /// A problem row is touched when both its id and its creator match.
    pub open spec fn selects(self, row: Problem) -> bool {
        row.id == self.id && row.creator == self.creator
    }

    /// The rows of problem `id` that `user` created.
    pub fn new(id: i32, user: Auth) -> (r: Self)
        ensures
            r.id == id,
            r.creator == user.0,
    {
        OwnedProblem { id, creator: user.0 }
    }
}

/// No user can touch a problem that another user created.
pub proof fn law_only_creator_modifies(id: i32, user: Auth, row: Problem)
    requires
        row.creator != user.0,
    ensures
        !(OwnedProblem { id, creator: user.0 }).selects(row),
{
}

} // verus!
