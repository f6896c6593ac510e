//! start.gg RaceMatchConfig.

use vstd::prelude::*;

use crate::field::{int_or_zero, int_field, flag_or_false, flag_field, ints_or_empty, int_list_field};

verus! {

/// Equivalent for start.gg RaceMatchConfig.
///
/// Each element in the structure is optional, allowing a user to only query values they want.
/// Given each is an option and not a requirement, a method is included for each element with the same name.
/// These methods will unwrap and return the proper value without any unwrapping or references needed.
#[derive(Debug)]
pub struct GGRaceMatchConfig {
    pub bracket_type: Option<i64>,
    pub id: Option<i64>,
    pub player_reporting_enabled: Option<bool>,
    pub verification_methods: Option<Vec<i64>>,
    pub verification_required: Option<bool>,
}

impl GGRaceMatchConfig {
    /// Whether no field was set, as after a query that requested none.
    pub open spec fn is_blank(&self) -> bool {
        &&& self.bracket_type is None
        &&& self.id is None
        &&& self.player_reporting_enabled is None
        &&& self.verification_methods is None
        &&& self.verification_required is None
    }

    /// Whether `other` holds the same values as `self`, field by field and
    /// through every record and list below it.
    pub open spec fn same(&self, other: &GGRaceMatchConfig) -> bool
        decreases self,
    {
        &&& self.bracket_type == other.bracket_type
        &&& self.id == other.id
        &&& self.player_reporting_enabled == other.player_reporting_enabled
        &&& (self.verification_methods is Some <==> other.verification_methods is Some)
        &&& ints_or_empty(self.verification_methods) == ints_or_empty(other.verification_methods)
        &&& self.verification_required == other.verification_required
    }

    /// Returns a copy of the record.
    pub fn copy(&self) -> (r: GGRaceMatchConfig)
        ensures
            self.same(&r),
        decreases self,
    {
        GGRaceMatchConfig {
            bracket_type: self.bracket_type,
            id: self.id,
            player_reporting_enabled: self.player_reporting_enabled,
            verification_methods: match &self.verification_methods {
                Some(_) => Some(int_list_field(&self.verification_methods)),
                None => None,
            },
            verification_required: self.verification_required,
        }
    }

    /// Returns the bracket type of the race match configuration.
    ///
    /// Returns zero if not set or wasn't queried.
    pub fn bracket_type(&self) -> (r: i64)
        ensures
            r == int_or_zero(self.bracket_type),
    {
        int_field(self.bracket_type)
    }

    /// Returns the id of the race match configuration.
    ///
    /// Returns zero if not set or wasn't queried.
    pub fn id(&self) -> (r: i64)
        ensures
            r == int_or_zero(self.id),
    {
        int_field(self.id)
    }

    /// Returns if the race match configuration has player reporting enabled.
    ///
    /// Returns false if not set or wasn't queried.
    pub fn player_reporting_enabled(&self) -> (r: bool)
        ensures
            r == flag_or_false(self.player_reporting_enabled),
    {
        flag_field(self.player_reporting_enabled)
    }

    /// Returns the verification methods of the race match configuration.
    ///
    /// Returns an empty vector if not set or wasn't queried.
    pub fn verification_methods(&self) -> (r: Vec<i64>)
        ensures
            r@ == ints_or_empty(self.verification_methods),
    {
        int_list_field(&self.verification_methods)
    }

    /// Returns if the race match configuration has verification required.
    ///
    /// Returns false if not set or wasn't queried.
    pub fn verification_required(&self) -> (r: bool)
        ensures
            r == flag_or_false(self.verification_required),
    {
        flag_field(self.verification_required)
    }
}

impl Clone for GGRaceMatchConfig {
    fn clone(&self) -> (r: GGRaceMatchConfig)
        ensures
            self.same(&r),
    {
        self.copy()
    }
}

impl Default for GGRaceMatchConfig {
    fn default() -> (r: GGRaceMatchConfig)
        ensures
            r.is_blank(),
    {
        GGRaceMatchConfig {
            bracket_type: None,
            id: None,
            player_reporting_enabled: None,
            verification_methods: None,
            verification_required: None,
        }
    }
}

} // verus!
