//! start.gg RaceBracketConfig.

use vstd::prelude::*;

use crate::field::{text_or_empty, text_field, int_or_zero, int_field};
use crate::timestamp::GGTimestamp;

verus! {

/// Equivalent for start.gg RaceBracketConfig.
///
/// Each element in the structure is optional, allowing a user to only query values they want.
/// Given each is an option and not a requirement, a method is included for each element with the same name.
/// These methods will unwrap and return the proper value without any unwrapping or references needed.
#[derive(Debug)]
pub struct GGRaceBracketConfig {
    pub automatic_end_time: Option<i64>,
    pub automatic_start_time: Option<i64>,
    pub bracket_type: Option<i64>,
    pub goal_target_comparator: Option<i64>,
    pub goal_target_value: Option<String>,
    pub id: Option<i64>,
    pub limit_mode: Option<i64>,
    pub limit_value: Option<i64>,
    pub race_type: Option<i64>,
}

impl GGRaceBracketConfig {
    /// Whether no field was set, as after a query that requested none.
    pub open spec fn is_blank(&self) -> bool {
        &&& self.automatic_end_time is None
        &&& self.automatic_start_time is None
        &&& self.bracket_type is None
        &&& self.goal_target_comparator is None
        &&& self.goal_target_value is None
        &&& self.id is None
        &&& self.limit_mode is None
        &&& self.limit_value is None
        &&& self.race_type is None
    }

    /// Whether `other` holds the same values as `self`, field by field and
    /// through every record and list below it.
    pub open spec fn same(&self, other: &GGRaceBracketConfig) -> bool
        decreases self,
    {
        &&& self.automatic_end_time == other.automatic_end_time
        &&& self.automatic_start_time == other.automatic_start_time
        &&& self.bracket_type == other.bracket_type
        &&& self.goal_target_comparator == other.goal_target_comparator
        &&& self.goal_target_value == other.goal_target_value
        &&& self.id == other.id
        &&& self.limit_mode == other.limit_mode
        &&& self.limit_value == other.limit_value
        &&& self.race_type == other.race_type
    }

    /// Returns a copy of the record.
    pub fn copy(&self) -> (r: GGRaceBracketConfig)
        ensures
            self.same(&r),
            r == *self,
        decreases self,
    {
        GGRaceBracketConfig {
            automatic_end_time: self.automatic_end_time,
            automatic_start_time: self.automatic_start_time,
            bracket_type: self.bracket_type,
            goal_target_comparator: self.goal_target_comparator,
            goal_target_value: self.goal_target_value.clone(),
            id: self.id,
            limit_mode: self.limit_mode,
            limit_value: self.limit_value,
            race_type: self.race_type,
        }
    }

    /// Returns the time the bracket ends.
    ///
    /// Returns zero if not set or wasn't queried.
    pub fn automatic_end_time(&self) -> (r: GGTimestamp)
        ensures
            r.seconds == int_or_zero(self.automatic_end_time),
    {
        GGTimestamp { seconds: int_field(self.automatic_end_time) }
    }

    /// Returns the time the bracket starts.
    ///
    /// Returns zero if not set or wasn't queried.
    pub fn automatic_start_time(&self) -> (r: GGTimestamp)
        ensures
            r.seconds == int_or_zero(self.automatic_start_time),
    {
        GGTimestamp { seconds: int_field(self.automatic_start_time) }
    }

    /// Returns the bracket type of the race bracket configuration.
    ///
    /// Returns zero if not set or wasn't queried.
    pub fn bracket_type(&self) -> (r: i64)
        ensures
            r == int_or_zero(self.bracket_type),
    {
        int_field(self.bracket_type)
    }

    /// Returns the goal target comparator of the race bracket configuration.
    ///
    /// Returns zero if not set or wasn't queried.
    pub fn goal_target_comparator(&self) -> (r: i64)
        ensures
            r == int_or_zero(self.goal_target_comparator),
    {
        int_field(self.goal_target_comparator)
    }

    /// Returns the goal target value of the race bracket configuration.
    ///
    /// Returns zero if not set or wasn't queried.
    pub fn goal_target_value(&self) -> (r: String)
        ensures
            r@ == text_or_empty(self.goal_target_value),
    {
        text_field(&self.goal_target_value)
    }

    /// Returns the id of the race bracket configuration.
    ///
    /// Returns zero if not set or wasn't queried.
    pub fn id(&self) -> (r: i64)
        ensures
            r == int_or_zero(self.id),
    {
        int_field(self.id)
    }

    /// Returns the limit mode of the race bracket configuration.
    ///
    /// Returns zero if not set or wasn't queried.
    pub fn limit_mode(&self) -> (r: i64)
        ensures
            r == int_or_zero(self.limit_mode),
    {
        int_field(self.limit_mode)
    }

    /// Returns the limit value of the race bracket configuration.
    ///
    /// Returns zero if not set or wasn't queried.
    pub fn limit_value(&self) -> (r: i64)
        ensures
            r == int_or_zero(self.limit_value),
    {
        int_field(self.limit_value)
    }

    /// Returns the race type of the race bracket configuration.
    ///
    /// Returns zero if not set or wasn't queried.
    pub fn race_type(&self) -> (r: i64)
        ensures
            r == int_or_zero(self.race_type),
    {
        int_field(self.race_type)
    }
}

impl Clone for GGRaceBracketConfig {
    fn clone(&self) -> (r: GGRaceBracketConfig)
        ensures
            self.same(&r),
            r == *self,
    {
        self.copy()
    }
}

impl Default for GGRaceBracketConfig {
    fn default() -> (r: GGRaceBracketConfig)
        ensures
            r.is_blank(),
    {
        GGRaceBracketConfig {
            automatic_end_time: None,
            automatic_start_time: None,
            bracket_type: None,
            goal_target_comparator: None,
            goal_target_value: None,
            id: None,
            limit_mode: None,
            limit_value: None,
            race_type: None,
        }
    }
}

} // verus!
