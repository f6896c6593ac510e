//! start.gg Phase.

use vstd::prelude::*;

use crate::field::{text_or_empty, text_field, int_or_zero, int_field, flag_or_false, flag_field};
use crate::structs::event::GGEvent;

verus! {

/// Equivalent for start.gg Phase.
///
/// Each element in the structure is optional, allowing a user to only query values they want.
/// Given each is an option and not a requirement, a method is included for each element with the same name.
/// These methods will unwrap and return the proper value without any unwrapping or references needed.
#[derive(Debug)]
pub struct GGPhase {
    pub bracket_type: Option<i64>,
    pub event: Option<Box<GGEvent>>,
    pub group_count: Option<i64>,
    pub id: Option<i64>,
    pub is_exhibition: Option<bool>,
    pub name: Option<String>,
    pub num_seeds: Option<i64>,
    pub phase_order: Option<i64>,
    pub state: Option<i64>,
}

impl GGPhase {
    /// Whether no field was set, as after a query that requested none.
    pub open spec fn is_blank(&self) -> bool {
        &&& self.bracket_type is None
        &&& self.event is None
        &&& self.group_count is None
        &&& self.id is None
        &&& self.is_exhibition is None
        &&& self.name is None
        &&& self.num_seeds is None
        &&& self.phase_order is None
        &&& self.state is None
    }

    /// Whether `other` holds the same values as `self`, field by field and
    /// through every record and list below it.
    pub open spec fn same(&self, other: &GGPhase) -> bool
        decreases self,
    {
        &&& self.bracket_type == other.bracket_type
        &&& match (self.event, other.event) {
            (Some(a), Some(b)) => a.same(&b),
            (None, None) => true,
            _ => false,
        }
        &&& self.group_count == other.group_count
        &&& self.id == other.id
        &&& self.is_exhibition == other.is_exhibition
        &&& self.name == other.name
        &&& self.num_seeds == other.num_seeds
        &&& self.phase_order == other.phase_order
        &&& self.state == other.state
    }

    /// Returns a copy of the record.
    pub fn copy(&self) -> (r: GGPhase)
        ensures
            self.same(&r),
        decreases self,
    {
        GGPhase {
            bracket_type: self.bracket_type,
            event: match &self.event {
                Some(b) => Some(Box::new(b.copy())),
                None => None,
            },
            group_count: self.group_count,
            id: self.id,
            is_exhibition: self.is_exhibition,
            name: self.name.clone(),
            num_seeds: self.num_seeds,
            phase_order: self.phase_order,
            state: self.state,
        }
    }

    /// Returns a copy of each record of a list, in order.
    pub fn copy_all(v: &Vec<GGPhase>) -> (r: Vec<GGPhase>)
        ensures
            r@.len() == v@.len(),
            forall|i: int| 0 <= i < v@.len() ==> v@[i].same(&(#[trigger] r@[i])),
        decreases v,
    {
        let mut r: Vec<GGPhase> = Vec::new();
        let mut i: usize = 0;
        while i < v.len()
            invariant
                i <= v@.len(),
                r@.len() == i,
                forall|k: int| 0 <= k < i ==> v@[k].same(&(#[trigger] r@[k])),
            decreases v@.len() - i,
        {
            proof {
                assert(decreases_to!(v => v[i as int]));
            }
            r.push(v[i].copy());
            i = i + 1;
        }
        r
    }

    /// Returns the bracket type of the phase.
    ///
    /// Returns zero if not set or wasn't queried.
    pub fn bracket_type(&self) -> (r: i64)
        ensures
            r == int_or_zero(self.bracket_type),
    {
        int_field(self.bracket_type)
    }

    /// Returns the event the phase is in.
    ///
    /// Returns an empty event if not set or wasn't queried.
    pub fn event(&self) -> (r: GGEvent)
        ensures
            match self.event {
                Some(c) => c.same(&r),
                None => r.is_blank(),
            },
    {
        match &self.event {
            Some(c) => c.copy(),
            None => GGEvent::default(),
        }
    }

    /// Returns the group count of the phase.
    ///
    /// Returns zero if not set or wasn't queried.
    pub fn group_count(&self) -> (r: i64)
        ensures
            r == int_or_zero(self.group_count),
    {
        int_field(self.group_count)
    }

    /// Returns the id of the phase.
    ///
    /// Returns zero if not set or wasn't queried.
    pub fn id(&self) -> (r: i64)
        ensures
            r == int_or_zero(self.id),
    {
        int_field(self.id)
    }

    /// Returns if the phase is an exhibition.
    ///
    /// Returns false if not set or wasn't queried.
    pub fn is_exhibition(&self) -> (r: bool)
        ensures
            r == flag_or_false(self.is_exhibition),
    {
        flag_field(self.is_exhibition)
    }

    /// Returns the name of the phase.
    ///
    /// Returns an empty string if not set or wasn't queried.
    pub fn name(&self) -> (r: String)
        ensures
            r@ == text_or_empty(self.name),
    {
        text_field(&self.name)
    }

    /// Returns the number of seeds in the phase.
    ///
    /// Returns zero if not set or wasn't queried.
    pub fn num_seeds(&self) -> (r: i64)
        ensures
            r == int_or_zero(self.num_seeds),
    {
        int_field(self.num_seeds)
    }

    /// Returns the phase order of the phase.
    ///
    /// Returns zero if not set or wasn't queried.
    pub fn phase_order(&self) -> (r: i64)
        ensures
            r == int_or_zero(self.phase_order),
    {
        int_field(self.phase_order)
    }

    /// Returns the state of the phase.
    ///
    /// Returns zero if not set or wasn't queried.
    pub fn state(&self) -> (r: i64)
        ensures
            r == int_or_zero(self.state),
    {
        int_field(self.state)
    }
}

impl Clone for GGPhase {
    fn clone(&self) -> (r: GGPhase)
        ensures
            self.same(&r),
    {
        self.copy()
    }
}

impl Default for GGPhase {
    fn default() -> (r: GGPhase)
        ensures
            r.is_blank(),
    {
        GGPhase {
            bracket_type: None,
            event: None,
            group_count: None,
            id: None,
            is_exhibition: None,
            name: None,
            num_seeds: None,
            phase_order: None,
            state: None,
        }
    }
}

} // verus!
