//! start.gg TeamRosterSize.

use vstd::prelude::*;

use crate::field::{int_or_zero, int_field};

verus! {

/// Equivalent for start.gg TeamRosterSize.
///
/// Each element in the structure is optional, allowing a user to only query values they want.
/// Given each is an option and not a requirement, a method is included for each element with the same name.
/// These methods will unwrap and return the proper value without any unwrapping or references needed.
#[derive(Debug)]
pub struct GGTeamRosterSize {
    pub max_alternates: Option<i64>,
    pub max_players: Option<i64>,
    pub min_alternates: Option<i64>,
    pub min_players: Option<i64>,
}

impl GGTeamRosterSize {
    /// Whether no field was set, as after a query that requested none.
    pub open spec fn is_blank(&self) -> bool {
        &&& self.max_alternates is None
        &&& self.max_players is None
        &&& self.min_alternates is None
        &&& self.min_players is None
    }

    /// Whether `other` holds the same values as `self`, field by field and
    /// through every record and list below it.
    pub open spec fn same(&self, other: &GGTeamRosterSize) -> bool
        decreases self,
    {
        &&& self.max_alternates == other.max_alternates
        &&& self.max_players == other.max_players
        &&& self.min_alternates == other.min_alternates
        &&& self.min_players == other.min_players
    }

    /// Returns a copy of the record.
    pub fn copy(&self) -> (r: GGTeamRosterSize)
        ensures
            self.same(&r),
            r == *self,
        decreases self,
    {
        GGTeamRosterSize {
            max_alternates: self.max_alternates,
            max_players: self.max_players,
            min_alternates: self.min_alternates,
            min_players: self.min_players,
        }
    }

    /// Returns the max alternates of the team roster size.
    ///
    /// Returns zero if not set or wasn't queried.
    pub fn max_alternates(&self) -> (r: i64)
        ensures
            r == int_or_zero(self.max_alternates),
    {
        int_field(self.max_alternates)
    }

    /// Returns the max players of the team roster size.
    ///
    /// Returns zero if not set or wasn't queried.
    pub fn max_players(&self) -> (r: i64)
        ensures
            r == int_or_zero(self.max_players),
    {
        int_field(self.max_players)
    }

    /// Returns the min alternates of the team roster size.
    ///
    /// Returns zero if not set or wasn't queried.
    pub fn min_alternates(&self) -> (r: i64)
        ensures
            r == int_or_zero(self.min_alternates),
    {
        int_field(self.min_alternates)
    }

    /// Returns the min players of the team roster size.
    ///
    /// Returns zero if not set or wasn't queried.
    pub fn min_players(&self) -> (r: i64)
        ensures
            r == int_or_zero(self.min_players),
    {
        int_field(self.min_players)
    }
}

impl Clone for GGTeamRosterSize {
    fn clone(&self) -> (r: GGTeamRosterSize)
        ensures
            self.same(&r),
            r == *self,
    {
        self.copy()
    }
}

impl Default for GGTeamRosterSize {
    fn default() -> (r: GGTeamRosterSize)
        ensures
            r.is_blank(),
    {
        GGTeamRosterSize {
            max_alternates: None,
            max_players: None,
            min_alternates: None,
            min_players: None,
        }
    }
}

} // verus!
