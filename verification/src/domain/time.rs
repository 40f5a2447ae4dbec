//! Points in time as the backend reports them.

use vstd::prelude::*;

verus! {

/// A point in time: seconds since the Unix epoch, and nanoseconds within
/// the second.
#[derive(Debug, Clone, Copy, PartialEq, Eq, Structural)]
pub struct Timestamp {
    pub seconds: i64,
    pub nanos: u32,
}

} // verus!
