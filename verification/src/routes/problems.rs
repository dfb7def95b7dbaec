//! The problem endpoints. Each handler's decisions stand here; the
//! database queries stay with the server, which hands over what they
//! returned.
use vstd::prelude::*;

use crate::auth::Auth;
use crate::database::DbError;
use crate::decimal::{decimal, format_i32};
use crate::form::{byte_len, FormErrors};
use crate::models::problem::{problem_form_errors, NewProblem, Problem, ProblemData, UpdateProblem};
use crate::routes::{DbResult, Endpoint};
use crate::status;

verus! {

/// Where the problem endpoints are mounted.
pub const PROBLEMS_BASE: &'static str = "/api/problems";

/// The path of problem `id`.
pub open spec fn problem_location(id: i32) -> Seq<char> {
    PROBLEMS_BASE@ + "/"@ + decimal(id as int)
}

/// The path of problem `id`: `/api/problems/<id>`.
pub fn problem_uri(id: i32) -> (r: String)
    ensures
        r@ == problem_location(id),
        r@ == "/api/problems/"@ + decimal(id as int),
{
    proof {
        reveal_strlit("/api/problems");
        reveal_strlit("/");
        reveal_strlit("/api/problems/");
        assert("/api/problems"@ + "/"@ =~= "/api/problems/"@);
    }
    let mut r = String::from_str(PROBLEMS_BASE);
    r.append("/");
    let digits = format_i32(id);
    r.append(digits.as_str());
    proof {
        assert(r@ =~= problem_location(id));
    }
    r
}

/// The row that a creation request by `user` inserts, or the errors of its
/// form: a refused form (answered 422) inserts nothing.
pub fn problem_row(data: &ProblemData, user: Auth) -> (r: Result<NewProblem, FormErrors>)
    ensures
        r is Err <==> problem_form_errors(data.title@, data.grade).len() > 0,
        r matches Err(e) ==> e.errors@ == problem_form_errors(data.title@, data.grade),
        r is Ok <==> (2 <= byte_len(data.title@) && byte_len(data.title@) <= 25 && 0 <= data.grade
            && data.grade <= 19),
        r matches Ok(row) ==> row.title@ == data.title@ && row.grade == data.grade && row.creator
            == user.0,
{
    match data.validate() {
        Ok(()) => Ok(NewProblem::new(data.title, data.grade, user.0)),
        Err(e) => Err(e),
    }
}

/// The new values that an update request writes, or the errors of its
/// form: a refused form (answered 422) updates nothing.
pub fn problem_update(data: &ProblemData) -> (r: Result<UpdateProblem, FormErrors>)
    ensures
        r is Err <==> problem_form_errors(data.title@, data.grade).len() > 0,
        r matches Err(e) ==> e.errors@ == problem_form_errors(data.title@, data.grade),
        r is Ok <==> (2 <= byte_len(data.title@) && byte_len(data.title@) <= 25 && 0 <= data.grade
            && data.grade <= 19),
        r matches Ok(u) ==> u.title@ == data.title@ && u.grade == data.grade,
{
    match data.validate() {
        Ok(()) => Ok(UpdateProblem::new(data)),
        Err(e) => Err(e),
    }
}

/// A created problem, the status of its creation, and its path.
#[derive(Debug)]
pub struct CreatedProblem {
    pub status: u16,
    pub location: String,
    pub problem: Problem,
}

/// Answers a creation from what the insert of the new row returned: the
/// stored problem, with 201 Created at its path.
pub fn create_problem(inserted: DbResult<Problem>) -> (r: DbResult<CreatedProblem>)
    ensures
        match inserted {
            Ok(p) => r matches Ok(c) && c.status == status::CREATED && c.location@
                == problem_location(p.id) && c.location@ == "/api/problems/"@ + decimal(p.id as int)
                && c.problem == p,
            Err(e) => r == Err::<CreatedProblem, DbError>(e),
        },
{
    match inserted {
        Ok(problem) => {
            let location = problem_uri(problem.id);
            Ok(CreatedProblem { status: status::CREATED, location, problem })
        },
        Err(e) => Err(e),
    }
}

/// Answers the listing with the problems loaded, newest first as the query
/// orders them; a failed query is a database error.
pub fn get_problems(loaded: DbResult<Vec<Problem>>) -> (r: DbResult<Vec<Problem>>)
    ensures
        r == loaded,
{
    loaded
}

/// Answers an update with the updated row; a failed update, such as one
/// that found no row of this id created by the user, is a database error.
pub fn update_problem(updated: DbResult<Problem>) -> (r: DbResult<Problem>)
    ensures
        r == updated,
{
    updated
}

/// Answers a lookup by id: the problem, or 404 when the lookup failed.
pub fn get_problem(found: DbResult<Problem>) -> (r: Option<Problem>)
    ensures
        match found {
            Ok(p) => r == Some(p),
            Err(_) => r is None,
        },
{
    match found {
        Ok(problem) => Some(problem),
        Err(_) => None,
    }
}

/// Answers a delete from the number of rows it removed: 200 when it
/// removed exactly one, 404 otherwise.
pub fn delete_problem(affected: DbResult<usize>) -> (r: DbResult<Option<()>>)
    ensures
        match affected {
            Ok(n) => r == Ok::<Option<()>, DbError>(if n == 1 { Some(()) } else { None }),
            Err(e) => r == Err::<Option<()>, DbError>(e),
        },
{
    match affected {
        Ok(n) => {
            if n == 1 {
                Ok(Some(()))
            } else {
                Ok(None)
            }
        },
        Err(e) => Err(e),
    }
}

/// The problem endpoints, in the order in which they are mounted.
pub fn routes() -> (r: Vec<Endpoint>)
    ensures
        r@ == seq![
            Endpoint::CreateProblem,
            Endpoint::GetProblems,
            Endpoint::GetProblem,
            Endpoint::UpdateProblem,
            Endpoint::DeleteProblem,
        ],
{
    let r = vec![
        Endpoint::CreateProblem,
        Endpoint::GetProblems,
        Endpoint::GetProblem,
        Endpoint::UpdateProblem,
        Endpoint::DeleteProblem,
    ];
    r
}

} // verus!
