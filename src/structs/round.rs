//! start.gg Round.

use vstd::prelude::*;

use crate::field::{int_or_zero, int_field};
use crate::timestamp::GGTimestamp;

verus! {

/// Equivalent for start.gg Round.
///
/// Each element in the structure is optional, allowing a user to only query values they want.
/// Given each is an option and not a requirement, a method is included for each element with the same name.
/// These methods will unwrap and return the proper value without any unwrapping or references needed.
#[derive(Debug)]
pub struct GGRound {
    pub best_of: Option<i64>,
    pub id: Option<i64>,
    pub number: Option<i64>,
    pub start_at: Option<i64>,
}

impl GGRound {
    /// Whether no field was set, as after a query that requested none.
    pub open spec fn is_blank(&self) -> bool {
        &&& self.best_of is None
        &&& self.id is None
        &&& self.number is None
        &&& self.start_at is None
    }

    /// Whether `other` holds the same values as `self`, field by field and
    /// through every record and list below it.
    pub open spec fn same(&self, other: &GGRound) -> bool
        decreases self,
    {
        &&& self.best_of == other.best_of
        &&& self.id == other.id
        &&& self.number == other.number
        &&& self.start_at == other.start_at
    }

    /// Returns a copy of the record.
    pub fn copy(&self) -> (r: GGRound)
        ensures
            self.same(&r),
            r == *self,
        decreases self,
    {
        GGRound {
            best_of: self.best_of,
            id: self.id,
            number: self.number,
            start_at: self.start_at,
        }
    }

    /// Returns the number of games needed to win a majority of in the round.
    ///
    /// Returns zero if not set or wasn't queried.
    pub fn best_of(&self) -> (r: i64)
        ensures
            r == int_or_zero(self.best_of),
    {
        int_field(self.best_of)
    }

    /// Returns the id of the round.
    ///
    /// Returns zero if not set or wasn't queried.
    pub fn id(&self) -> (r: i64)
        ensures
            r == int_or_zero(self.id),
    {
        int_field(self.id)
    }

    /// Returns the number of the round.
    ///
    /// Returns zero if not set or wasn't queried.
    pub fn number(&self) -> (r: i64)
        ensures
            r == int_or_zero(self.number),
    {
        int_field(self.number)
    }

    /// Returns the start time of the round.
    ///
    /// Returns zero if not set or wasn't queried.
    pub fn start_at(&self) -> (r: GGTimestamp)
        ensures
            r.seconds == int_or_zero(self.start_at),
    {
        GGTimestamp { seconds: int_field(self.start_at) }
    }
}

impl Clone for GGRound {
    fn clone(&self) -> (r: GGRound)
        ensures
            self.same(&r),
            r == *self,
    {
        self.copy()
    }
}

impl Default for GGRound {
    fn default() -> (r: GGRound)
        ensures
            r.is_blank(),
    {
        GGRound {
            best_of: None,
            id: None,
            number: None,
            start_at: None,
        }
    }
}

} // verus!
