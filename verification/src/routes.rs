//! The API's endpoints: what each one answers, and where each is mounted.
pub mod problems;
pub mod users;

use vstd::prelude::*;

use crate::database::DbError;
use crate::status;

verus! {

/// The result of a handler whose only failure is a database error, which
/// is answered with 500 Internal Server Error.
pub type DbResult<T> = Result<T, DbError>;

/// The status with which a handler answers a database error.
pub fn db_error_status(_err: &DbError) -> (r: u16)
    ensures
        r == status::INTERNAL_SERVER_ERROR,
{
    status::INTERNAL_SERVER_ERROR
}

/// An HTTP method.
#[derive(Clone, Copy, Debug, PartialEq, Eq, Structural)]
pub enum Method {
    Get,
    Post,
    Put,
    Delete,
}

/// An endpoint of the API.
#[derive(Clone, Copy, Debug, PartialEq, Eq, Structural)]
pub enum Endpoint {
    HealthCheck,
    CreateProblem,
    GetProblems,
    GetProblem,
    UpdateProblem,
    DeleteProblem,
    Login,
    Register,
    Me,
    GetProfile,
    Logout,
}

/// The method that an endpoint answers.
pub open spec fn endpoint_method(e: Endpoint) -> Method {
    match e {
        Endpoint::HealthCheck => Method::Get,
        Endpoint::CreateProblem => Method::Post,
        Endpoint::GetProblems => Method::Get,
        Endpoint::GetProblem => Method::Get,
        Endpoint::UpdateProblem => Method::Put,
        Endpoint::DeleteProblem => Method::Delete,
        Endpoint::Login => Method::Post,
        Endpoint::Register => Method::Post,
        Endpoint::Me => Method::Get,
        Endpoint::GetProfile => Method::Get,
        Endpoint::Logout => Method::Post,
    }
}

/// The path of an endpoint below its mount point; `<id>` stands for an
/// `i32` segment.
pub open spec fn endpoint_path(e: Endpoint) -> Seq<char> {
    match e {
        Endpoint::HealthCheck => "/health_check"@,
        Endpoint::CreateProblem => "/"@,
        Endpoint::GetProblems => "/"@,
        Endpoint::GetProblem => "/<id>"@,
        Endpoint::UpdateProblem => "/<id>"@,
        Endpoint::DeleteProblem => "/<id>"@,
        Endpoint::Login => "/login"@,
        Endpoint::Register => "/register"@,
        Endpoint::Me => "/me"@,
        Endpoint::GetProfile => "/<id>"@,
        Endpoint::Logout => "/logout"@,
    }
}

impl Endpoint {
    /// The method that the endpoint answers.
    pub fn method(&self) -> (r: Method)
        ensures
            r == endpoint_method(*self),
    {
        match self {
            Endpoint::HealthCheck => Method::Get,
            Endpoint::CreateProblem => Method::Post,
            Endpoint::GetProblems => Method::Get,
            Endpoint::GetProblem => Method::Get,
            Endpoint::UpdateProblem => Method::Put,
            Endpoint::DeleteProblem => Method::Delete,
            Endpoint::Login => Method::Post,
            Endpoint::Register => Method::Post,
            Endpoint::Me => Method::Get,
            Endpoint::GetProfile => Method::Get,
            Endpoint::Logout => Method::Post,
        }
    }

    /// The path of the endpoint below its mount point.
    pub fn path(&self) -> (r: &'static str)
        ensures
            r@ == endpoint_path(*self),
    {
        match self {
            Endpoint::HealthCheck => "/health_check",
            Endpoint::CreateProblem => "/",
            Endpoint::GetProblems => "/",
            Endpoint::GetProblem => "/<id>",
            Endpoint::UpdateProblem => "/<id>",
            Endpoint::DeleteProblem => "/<id>",
            Endpoint::Login => "/login",
            Endpoint::Register => "/register",
            Endpoint::Me => "/me",
            Endpoint::GetProfile => "/<id>",
            Endpoint::Logout => "/logout",
        }
    }
}

/// The health check answers 200 OK.
pub fn health_check() -> (r: u16)
    ensures
        r == status::OK,
{
    status::OK
}

} // verus!
