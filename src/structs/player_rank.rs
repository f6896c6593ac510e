//! start.gg PlayerRank.

use vstd::prelude::*;

use crate::field::{text_or_empty, text_field, int_or_zero, int_field};

verus! {

/// Equivalent for start.gg PlayerRank.
///
/// Each element in the structure is optional, allowing a user to only query values they want.
/// Given each is an option and not a requirement, a method is included for each element with the same name.
/// These methods will unwrap and return the proper value without any unwrapping or references needed.
#[derive(Debug)]
pub struct GGPlayerRank {
    pub id: Option<i64>,
    pub rank: Option<i64>,
    pub title: Option<String>,
}

impl GGPlayerRank {
    /// Whether no field was set, as after a query that requested none.
    pub open spec fn is_blank(&self) -> bool {
        &&& self.id is None
        &&& self.rank is None
        &&& self.title is None
    }

    /// Whether `other` holds the same values as `self`, field by field and
    /// through every record and list below it.
    pub open spec fn same(&self, other: &GGPlayerRank) -> bool
        decreases self,
    {
        &&& self.id == other.id
        &&& self.rank == other.rank
        &&& self.title == other.title
    }

    /// Returns a copy of the record.
    pub fn copy(&self) -> (r: GGPlayerRank)
        ensures
            self.same(&r),
            r == *self,
        decreases self,
    {
        GGPlayerRank {
            id: self.id,
            rank: self.rank,
            title: self.title.clone(),
        }
    }

    /// Returns the id of the player rank.
    ///
    /// Returns zero if not set or wasn't queried.
    pub fn id(&self) -> (r: i64)
        ensures
            r == int_or_zero(self.id),
    {
        int_field(self.id)
    }

    /// Returns the rank of the player rank.
    ///
    /// Returns zero if not set or wasn't queried.
    pub fn rank(&self) -> (r: i64)
        ensures
            r == int_or_zero(self.rank),
    {
        int_field(self.rank)
    }

    /// Returns the title of the player rank.
    ///
    /// Returns an empty string if not set or wasn't queried.
    pub fn title(&self) -> (r: String)
        ensures
            r@ == text_or_empty(self.title),
    {
        text_field(&self.title)
    }
}

impl Clone for GGPlayerRank {
    fn clone(&self) -> (r: GGPlayerRank)
        ensures
            self.same(&r),
            r == *self,
    {
        self.copy()
    }
}

impl Default for GGPlayerRank {
    fn default() -> (r: GGPlayerRank)
        ensures
            r.is_blank(),
    {
        GGPlayerRank {
            id: None,
            rank: None,
            title: None,
        }
    }
}

} // verus!
