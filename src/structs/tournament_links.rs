//! start.gg TournamentLinks.

use vstd::prelude::*;

use crate::field::{text_or_empty, text_field};

verus! {

/// Equivalent for start.gg TournamentLinks.
///
/// Each element in the structure is optional, allowing a user to only query values they want.
/// Given each is an option and not a requirement, a method is included for each element with the same name.
/// These methods will unwrap and return the proper value without any unwrapping or references needed.
#[derive(Debug)]
pub struct GGTournamentLinks {
    pub facebook: Option<String>,
    pub discord: Option<String>,
}

impl GGTournamentLinks {
    /// Whether no field was set, as after a query that requested none.
    pub open spec fn is_blank(&self) -> bool {
        &&& self.facebook is None
        &&& self.discord is None
    }

    /// Whether `other` holds the same values as `self`, field by field and
    /// through every record and list below it.
    pub open spec fn same(&self, other: &GGTournamentLinks) -> bool
        decreases self,
    {
        &&& self.facebook == other.facebook
        &&& self.discord == other.discord
    }

    /// Returns a copy of the record.
    pub fn copy(&self) -> (r: GGTournamentLinks)
        ensures
            self.same(&r),
            r == *self,
        decreases self,
    {
        GGTournamentLinks {
            facebook: self.facebook.clone(),
            discord: self.discord.clone(),
        }
    }

    /// Returns the facebook link of the tournament.
    ///
    /// Returns an empty string if not set or wasn't queried.
    pub fn facebook(&self) -> (r: String)
        ensures
            r@ == text_or_empty(self.facebook),
    {
        text_field(&self.facebook)
    }

    /// Returns the discord link of the tournament.
    ///
    /// Returns an empty string if not set or wasn't queried.
    pub fn discord(&self) -> (r: String)
        ensures
            r@ == text_or_empty(self.discord),
    {
        text_field(&self.discord)
    }
}

impl Clone for GGTournamentLinks {
    fn clone(&self) -> (r: GGTournamentLinks)
        ensures
            self.same(&r),
            r == *self,
    {
        self.copy()
    }
}

impl Default for GGTournamentLinks {
    fn default() -> (r: GGTournamentLinks)
        ensures
            r.is_blank(),
    {
        GGTournamentLinks {
            facebook: None,
            discord: None,
        }
    }
}

} // verus!
