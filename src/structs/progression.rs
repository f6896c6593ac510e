//! start.gg Progression.

use vstd::prelude::*;

use crate::field::{int_or_zero, int_field};
use crate::structs::phase::GGPhase;
use crate::structs::phase_group::GGPhaseGroup;

verus! {

/// Equivalent for start.gg Progression.
///
/// Each element in the structure is optional, allowing a user to only query values they want.
/// Given each is an option and not a requirement, a method is included for each element with the same name.
/// These methods will unwrap and return the proper value without any unwrapping or references needed.
#[derive(Debug)]
pub struct GGProgression {
    pub id: Option<i64>,
    pub origin_order: Option<i64>,
    pub origin_phase: Option<Box<GGPhase>>,
    pub origin_phase_group: Option<Box<GGPhaseGroup>>,
    pub origin_placement: Option<i64>,
}

impl GGProgression {
    /// Whether no field was set, as after a query that requested none.
    pub open spec fn is_blank(&self) -> bool {
        &&& self.id is None
        &&& self.origin_order is None
        &&& self.origin_phase is None
        &&& self.origin_phase_group is None
        &&& self.origin_placement is None
    }

    /// Whether `other` holds the same values as `self`, field by field and
    /// through every record and list below it.
    pub open spec fn same(&self, other: &GGProgression) -> bool
        decreases self,
    {
        &&& self.id == other.id
        &&& self.origin_order == other.origin_order
        &&& match (self.origin_phase, other.origin_phase) {
            (Some(a), Some(b)) => a.same(&b),
            (None, None) => true,
            _ => false,
        }
        &&& match (self.origin_phase_group, other.origin_phase_group) {
            (Some(a), Some(b)) => a.same(&b),
            (None, None) => true,
            _ => false,
        }
        &&& self.origin_placement == other.origin_placement
    }

    /// Returns a copy of the record.
    pub fn copy(&self) -> (r: GGProgression)
        ensures
            self.same(&r),
        decreases self,
    {
        GGProgression {
            id: self.id,
            origin_order: self.origin_order,
            origin_phase: match &self.origin_phase {
                Some(b) => Some(Box::new(b.copy())),
                None => None,
            },
            origin_phase_group: match &self.origin_phase_group {
                Some(b) => Some(Box::new(b.copy())),
                None => None,
            },
            origin_placement: self.origin_placement,
        }
    }

    /// Returns the id of the progression.
    ///
    /// Returns zero if not set or wasn't queried.
    pub fn id(&self) -> (r: i64)
        ensures
            r == int_or_zero(self.id),
    {
        int_field(self.id)
    }

    /// Returns the origin order of the progression.
    ///
    /// Returns zero if not set or wasn't queried.
    pub fn origin_order(&self) -> (r: i64)
        ensures
            r == int_or_zero(self.origin_order),
    {
        int_field(self.origin_order)
    }

    /// Returns the origin phase of the progression.
    ///
    /// Returns an empty phase if not set or wasn't queried.
    pub fn origin_phase(&self) -> (r: GGPhase)
        ensures
            match self.origin_phase {
                Some(c) => c.same(&r),
                None => r.is_blank(),
            },
    {
        match &self.origin_phase {
            Some(c) => c.copy(),
            None => GGPhase::default(),
        }
    }

    /// Returns the origin phase group of the progression.
    ///
    /// Returns an empty phase group if not set or wasn't queried.
    pub fn origin_phase_group(&self) -> (r: GGPhaseGroup)
        ensures
            match self.origin_phase_group {
                Some(c) => c.same(&r),
                None => r.is_blank(),
            },
    {
        match &self.origin_phase_group {
            Some(c) => c.copy(),
            None => GGPhaseGroup::default(),
        }
    }

    /// Returns the origin placement of the progression.
    ///
    /// Returns zero if not set or wasn't queried.
    pub fn origin_placement(&self) -> (r: i64)
        ensures
            r == int_or_zero(self.origin_placement),
    {
        int_field(self.origin_placement)
    }
}

impl Clone for GGProgression {
    fn clone(&self) -> (r: GGProgression)
        ensures
            self.same(&r),
    {
        self.copy()
    }
}

impl Default for GGProgression {
    fn default() -> (r: GGProgression)
        ensures
            r.is_blank(),
    {
        GGProgression {
            id: None,
            origin_order: None,
            origin_phase: None,
            origin_phase_group: None,
            origin_placement: None,
        }
    }
}

} // verus!
