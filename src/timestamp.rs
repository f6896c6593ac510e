//! Points in time as the remote API sends them.

use vstd::prelude::*;

verus! {

/// A point in time, in whole seconds since the Unix epoch, in UTC.
///
/// The remote API sends every time as such a count of seconds; converting it
/// to a calendar date is left to the caller's date library.
#[derive(Clone, Copy, Debug, PartialEq, Eq, Structural)]
pub struct GGTimestamp {
    pub seconds: i64,
}

} // verus!
