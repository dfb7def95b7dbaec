//! The records that the API stores and the forms that it accepts.
pub mod problem;
pub mod user;

use vstd::prelude::*;

verus! {

/// A point in time (UTC): seconds since the Unix epoch and the nanoseconds
/// within that second.
#[derive(Clone, Copy, Debug, PartialEq, Eq, Structural)]
pub struct Timestamp {
    pub secs: i64,
    pub nanos: u32,
}

} // verus!
