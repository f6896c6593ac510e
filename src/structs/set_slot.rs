//! start.gg SetSlot.

use vstd::prelude::*;

use crate::field::{text_or_empty, text_field, int_or_zero, int_field};
use crate::structs::entrant::GGEntrant;
use crate::structs::seed::GGSeed;
use crate::structs::standing::GGStanding;

verus! {

/// Equivalent for start.gg SetSlot.
///
/// Each element in the structure is optional, allowing a user to only query values they want.
/// Given each is an option and not a requirement, a method is included for each element with the same name.
/// These methods will unwrap and return the proper value without any unwrapping or references needed.
#[derive(Debug)]
pub struct GGSetSlot {
    pub entrant: Option<Box<GGEntrant>>,
    pub id: Option<i64>,
    pub prereq_id: Option<String>,
    pub prereq_placement: Option<i64>,
    pub prereq_type: Option<String>,
    pub seed: Option<Box<GGSeed>>,
    pub slot_index: Option<i64>,
    pub standing: Option<Box<GGStanding>>,
}

impl GGSetSlot {
    /// Whether no field was set, as after a query that requested none.
    pub open spec fn is_blank(&self) -> bool {
        &&& self.entrant is None
        &&& self.id is None
        &&& self.prereq_id is None
        &&& self.prereq_placement is None
        &&& self.prereq_type is None
        &&& self.seed is None
        &&& self.slot_index is None
        &&& self.standing is None
    }

    /// Whether `other` holds the same values as `self`, field by field and
    /// through every record and list below it.
    pub open spec fn same(&self, other: &GGSetSlot) -> bool
        decreases self,
    {
        &&& match (self.entrant, other.entrant) {
            (Some(a), Some(b)) => a.same(&b),
            (None, None) => true,
            _ => false,
        }
        &&& self.id == other.id
        &&& self.prereq_id == other.prereq_id
        &&& self.prereq_placement == other.prereq_placement
        &&& self.prereq_type == other.prereq_type
        &&& match (self.seed, other.seed) {
            (Some(a), Some(b)) => a.same(&b),
            (None, None) => true,
            _ => false,
        }
        &&& self.slot_index == other.slot_index
        &&& match (self.standing, other.standing) {
            (Some(a), Some(b)) => a.same(&b),
            (None, None) => true,
            _ => false,
        }
    }

    /// Returns a copy of the record.
    pub fn copy(&self) -> (r: GGSetSlot)
        ensures
            self.same(&r),
        decreases self,
    {
        GGSetSlot {
            entrant: match &self.entrant {
                Some(b) => Some(Box::new(b.copy())),
                None => None,
            },
            id: self.id,
            prereq_id: self.prereq_id.clone(),
            prereq_placement: self.prereq_placement,
            prereq_type: self.prereq_type.clone(),
            seed: match &self.seed {
                Some(b) => Some(Box::new(b.copy())),
                None => None,
            },
            slot_index: self.slot_index,
            standing: match &self.standing {
                Some(b) => Some(Box::new(b.copy())),
                None => None,
            },
        }
    }

    /// Returns a copy of each record of a list, in order.
    pub fn copy_all(v: &Vec<GGSetSlot>) -> (r: Vec<GGSetSlot>)
        ensures
            r@.len() == v@.len(),
            forall|i: int| 0 <= i < v@.len() ==> v@[i].same(&(#[trigger] r@[i])),
        decreases v,
    {
        let mut r: Vec<GGSetSlot> = Vec::new();
        let mut i: usize = 0;
        while i < v.len()
            invariant
                i <= v@.len(),
                r@.len() == i,
                forall|k: int| 0 <= k < i ==> v@[k].same(&(#[trigger] r@[k])),
            decreases v@.len() - i,
        {
            proof {
                assert(decreases_to!(v => v[i as int]));
            }
            r.push(v[i].copy());
            i = i + 1;
        }
        r
    }

    /// Returns the entrant of the set slot.
    ///
    /// Returns an empty entrant if not set or wasn't queried.
    pub fn entrant(&self) -> (r: GGEntrant)
        ensures
            match self.entrant {
                Some(c) => c.same(&r),
                None => r.is_blank(),
            },
    {
        match &self.entrant {
            Some(c) => c.copy(),
            None => GGEntrant::default(),
        }
    }

    /// Returns the id of the set slot.
    ///
    /// Returns zero if not set or wasn't queried.
    pub fn id(&self) -> (r: i64)
        ensures
            r == int_or_zero(self.id),
    {
        int_field(self.id)
    }

    /// Returns the prereq id of the set slot.
    ///
    /// Returns an empty string if not set or wasn't queried.
    pub fn prereq_id(&self) -> (r: String)
        ensures
            r@ == text_or_empty(self.prereq_id),
    {
        text_field(&self.prereq_id)
    }

    /// Returns the prereq placement of the set slot.
    ///
    /// Returns zero if not set or wasn't queried.
    pub fn prereq_placement(&self) -> (r: i64)
        ensures
            r == int_or_zero(self.prereq_placement),
    {
        int_field(self.prereq_placement)
    }

    /// Returns the prereq type of the set slot.
    ///
    /// Returns an empty string if not set or wasn't queried.
    pub fn prereq_type(&self) -> (r: String)
        ensures
            r@ == text_or_empty(self.prereq_type),
    {
        text_field(&self.prereq_type)
    }

    /// Returns the seed of the set slot.
    ///
    /// Returns an empty seed if not set or wasn't queried.
    pub fn seed(&self) -> (r: GGSeed)
        ensures
            match self.seed {
                Some(c) => c.same(&r),
                None => r.is_blank(),
            },
    {
        match &self.seed {
            Some(c) => c.copy(),
            None => GGSeed::default(),
        }
    }

    /// Returns the slot index of the set slot.
    ///
    /// Returns zero if not set or wasn't queried.
    pub fn slot_index(&self) -> (r: i64)
        ensures
            r == int_or_zero(self.slot_index),
    {
        int_field(self.slot_index)
    }

    /// Returns the standing of the set slot.
    ///
    /// Returns an empty standing if not set or wasn't queried.
    pub fn standing(&self) -> (r: GGStanding)
        ensures
            match self.standing {
                Some(c) => c.same(&r),
                None => r.is_blank(),
            },
    {
        match &self.standing {
            Some(c) => c.copy(),
            None => GGStanding::default(),
        }
    }
}

impl Clone for GGSetSlot {
    fn clone(&self) -> (r: GGSetSlot)
        ensures
            self.same(&r),
    {
        self.copy()
    }
}

impl Default for GGSetSlot {
    fn default() -> (r: GGSetSlot)
        ensures
            r.is_blank(),
    {
        GGSetSlot {
            entrant: None,
            id: None,
            prereq_id: None,
            prereq_placement: None,
            prereq_type: None,
            seed: None,
            slot_index: None,
            standing: None,
        }
    }
}

} // verus!
