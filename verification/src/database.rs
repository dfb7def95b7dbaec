//! The database as the API sees it: the pool it is reached through and the
//! errors that a query can end in.
use vstd::prelude::*;

verus! {

/// The name under which the Postgres pool is configured and attached.
pub const POOL_NAME: &'static str = "diesel_postgres_pool";

/// How a database query failed.
#[derive(Debug)]
pub enum DbError {
    /// The query asked for a row that does not exist.
    NotFound,
    /// An insert or update broke a unique constraint.
    UniqueViolation { constraint_name: Option<String>, message: String },
    /// Any other failure, with its message.
    Other { message: String },
}

/// The text of a database error.
pub open spec fn db_error_text(e: DbError) -> Seq<char> {
    match e {
        DbError::NotFound => "Record not found"@,
        DbError::UniqueViolation { message, .. } => message@,
        DbError::Other { message } => message@,
    }
}

impl DbError {
    /// The text of the error.
    pub fn message(&self) -> (r: String)
        ensures
            r@ == db_error_text(*self),
    {
        match self {
            DbError::NotFound => String::from_str("Record not found"),
            DbError::UniqueViolation { message, .. } => message.clone(),
            DbError::Other { message } => message.clone(),
        }
    }
}

} // verus!
