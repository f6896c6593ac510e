//! start.gg BracketConfig.

use vstd::prelude::*;

use crate::field::{int_or_zero, int_field};

verus! {

/// Equivalent for start.gg BracketConfig.
///
/// Each element in the structure is optional, allowing a user to only query values they want.
/// Given each is an option and not a requirement, a method is included for each element with the same name.
/// These methods will unwrap and return the proper value without any unwrapping or references needed.
#[derive(Debug)]
pub struct GGBracketConfig {
    pub bracket_type: Option<i64>,
    pub id: Option<i64>,
}

impl GGBracketConfig {
    /// Whether no field was set, as after a query that requested none.
    pub open spec fn is_blank(&self) -> bool {
        &&& self.bracket_type is None
        &&& self.id is None
    }

    /// Whether `other` holds the same values as `self`, field by field and
    /// through every record and list below it.
    pub open spec fn same(&self, other: &GGBracketConfig) -> bool
        decreases self,
    {
        &&& self.bracket_type == other.bracket_type
        &&& self.id == other.id
    }

    /// Returns a copy of the record.
    pub fn copy(&self) -> (r: GGBracketConfig)
        ensures
            self.same(&r),
            r == *self,
        decreases self,
    {
        GGBracketConfig {
            bracket_type: self.bracket_type,
            id: self.id,
        }
    }

    /// Returns the bracket type of the bracket.
    ///
    /// Returns zero if not set or wasn't queried.
    pub fn bracket_type(&self) -> (r: i64)
        ensures
            r == int_or_zero(self.bracket_type),
    {
        int_field(self.bracket_type)
    }

    /// Returns the id of the bracket.
    ///
    /// Returns zero if not set or wasn't queried.
    pub fn id(&self) -> (r: i64)
        ensures
            r == int_or_zero(self.id),
    {
        int_field(self.id)
    }
}

impl Clone for GGBracketConfig {
    fn clone(&self) -> (r: GGBracketConfig)
        ensures
            self.same(&r),
            r == *self,
    {
        self.copy()
    }
}

impl Default for GGBracketConfig {
    fn default() -> (r: GGBracketConfig)
        ensures
            r.is_blank(),
    {
        GGBracketConfig {
            bracket_type: None,
            id: None,
        }
    }
}

} // verus!
