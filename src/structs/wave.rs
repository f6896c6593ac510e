//! start.gg Wave.

use vstd::prelude::*;

use crate::field::{text_or_empty, text_field, int_or_zero, int_field};
use crate::timestamp::GGTimestamp;

verus! {

/// Equivalent for start.gg Wave.
///
/// Each element in the structure is optional, allowing a user to only query values they want.
/// Given each is an option and not a requirement, a method is included for each element with the same name.
/// These methods will unwrap and return the proper value without any unwrapping or references needed.
#[derive(Debug)]
pub struct GGWave {
    pub id: Option<i64>,
    pub identifier: Option<String>,
    pub start_at: Option<i64>,
}

impl GGWave {
    /// Whether no field was set, as after a query that requested none.
    pub open spec fn is_blank(&self) -> bool {
        &&& self.id is None
        &&& self.identifier is None
        &&& self.start_at is None
    }

    /// Whether `other` holds the same values as `self`, field by field and
    /// through every record and list below it.
    pub open spec fn same(&self, other: &GGWave) -> bool
        decreases self,
    {
        &&& self.id == other.id
        &&& self.identifier == other.identifier
        &&& self.start_at == other.start_at
    }

    /// Returns a copy of the record.
    pub fn copy(&self) -> (r: GGWave)
        ensures
            self.same(&r),
            r == *self,
        decreases self,
    {
        GGWave {
            id: self.id,
            identifier: self.identifier.clone(),
            start_at: self.start_at,
        }
    }

    /// Returns the id of the wave.
    ///
    /// Returns zero if not set or wasn't queried.
    pub fn id(&self) -> (r: i64)
        ensures
            r == int_or_zero(self.id),
    {
        int_field(self.id)
    }

    /// Returns the identifier of the wave.
    ///
    /// Returns an empty string if not set or wasn't queried.
    pub fn identifier(&self) -> (r: String)
        ensures
            r@ == text_or_empty(self.identifier),
    {
        text_field(&self.identifier)
    }

    /// Returns the start time of the wave.
    ///
    /// Returns zero if not set or wasn't queried.
    pub fn start_at(&self) -> (r: GGTimestamp)
        ensures
            r.seconds == int_or_zero(self.start_at),
    {
        GGTimestamp { seconds: int_field(self.start_at) }
    }
}

impl Clone for GGWave {
    fn clone(&self) -> (r: GGWave)
        ensures
            self.same(&r),
            r == *self,
    {
        self.copy()
    }
}

impl Default for GGWave {
    fn default() -> (r: GGWave)
        ensures
            r.is_blank(),
    {
        GGWave {
            id: None,
            identifier: None,
            start_at: None,
        }
    }
}

} // verus!
