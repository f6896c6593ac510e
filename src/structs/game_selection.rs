//! start.gg GameSelection.

use vstd::prelude::*;

use crate::field::{int_or_zero, int_field};
use crate::structs::entrant::GGEntrant;
use crate::structs::participant::GGParticipant;

verus! {

/// Equivalent for start.gg GameSelection.
///
/// Each element in the structure is optional, allowing a user to only query values they want.
/// Given each is an option and not a requirement, a method is included for each element with the same name.
/// These methods will unwrap and return the proper value without any unwrapping or references needed.
#[derive(Debug)]
pub struct GGGameSelection {
    pub entrant: Option<Box<GGEntrant>>,
    pub id: Option<i64>,
    pub order_num: Option<i64>,
    pub participant: Option<Box<GGParticipant>>,
    pub selection_type: Option<i64>,
    pub selection_value: Option<i64>,
}

impl GGGameSelection {
    /// Whether no field was set, as after a query that requested none.
    pub open spec fn is_blank(&self) -> bool {
        &&& self.entrant is None
        &&& self.id is None
        &&& self.order_num is None
        &&& self.participant is None
        &&& self.selection_type is None
        &&& self.selection_value is None
    }

    /// Whether `other` holds the same values as `self`, field by field and
    /// through every record and list below it.
    pub open spec fn same(&self, other: &GGGameSelection) -> bool
        decreases self,
    {
        &&& match (self.entrant, other.entrant) {
            (Some(a), Some(b)) => a.same(&b),
            (None, None) => true,
            _ => false,
        }
        &&& self.id == other.id
        &&& self.order_num == other.order_num
        &&& match (self.participant, other.participant) {
            (Some(a), Some(b)) => a.same(&b),
            (None, None) => true,
            _ => false,
        }
        &&& self.selection_type == other.selection_type
        &&& self.selection_value == other.selection_value
    }

    /// Returns a copy of the record.
    pub fn copy(&self) -> (r: GGGameSelection)
        ensures
            self.same(&r),
        decreases self,
    {
        GGGameSelection {
            entrant: match &self.entrant {
                Some(b) => Some(Box::new(b.copy())),
                None => None,
            },
            id: self.id,
            order_num: self.order_num,
            participant: match &self.participant {
                Some(b) => Some(Box::new(b.copy())),
                None => None,
            },
            selection_type: self.selection_type,
            selection_value: self.selection_value,
        }
    }

    /// Returns a copy of each record of a list, in order.
    pub fn copy_all(v: &Vec<GGGameSelection>) -> (r: Vec<GGGameSelection>)
        ensures
            r@.len() == v@.len(),
            forall|i: int| 0 <= i < v@.len() ==> v@[i].same(&(#[trigger] r@[i])),
        decreases v,
    {
        let mut r: Vec<GGGameSelection> = Vec::new();
        let mut i: usize = 0;
        while i < v.len()
            invariant
                i <= v@.len(),
                r@.len() == i,
                forall|k: int| 0 <= k < i ==> v@[k].same(&(#[trigger] r@[k])),
            decreases v@.len() - i,
        {
            proof {
                assert(decreases_to!(v => v[i as int]));
            }
            r.push(v[i].copy());
            i = i + 1;
        }
        r
    }

    /// Returns the entrant of the game selection.
    ///
    /// Returns an empty entrant if not set or wasn't queried.
    pub fn entrant(&self) -> (r: GGEntrant)
        ensures
            match self.entrant {
                Some(c) => c.same(&r),
                None => r.is_blank(),
            },
    {
        match &self.entrant {
            Some(c) => c.copy(),
            None => GGEntrant::default(),
        }
    }

    /// Returns the id of the game selection.
    ///
    /// Returns zero if not set or wasn't queried.
    pub fn id(&self) -> (r: i64)
        ensures
            r == int_or_zero(self.id),
    {
        int_field(self.id)
    }

    /// Returns the order number of the game selection.
    ///
    /// Returns zero if not set or wasn't queried.
    pub fn order_num(&self) -> (r: i64)
        ensures
            r == int_or_zero(self.order_num),
    {
        int_field(self.order_num)
    }

    /// Returns the participant of the game selection.
    ///
    /// Returns an empty participant if not set or wasn't queried.
    pub fn participant(&self) -> (r: GGParticipant)
        ensures
            match self.participant {
                Some(c) => c.same(&r),
                None => r.is_blank(),
            },
    {
        match &self.participant {
            Some(c) => c.copy(),
            None => GGParticipant::default(),
        }
    }

    /// Returns the selection type of the game selection.
    ///
    /// Returns zero if not set or wasn't queried.
    pub fn selection_type(&self) -> (r: i64)
        ensures
            r == int_or_zero(self.selection_type),
    {
        int_field(self.selection_type)
    }

    /// Returns the selection value of the game selection.
    ///
    /// Returns zero if not set or wasn't queried.
    pub fn selection_value(&self) -> (r: i64)
        ensures
            r == int_or_zero(self.selection_value),
    {
        int_field(self.selection_value)
    }
}

impl Clone for GGGameSelection {
    fn clone(&self) -> (r: GGGameSelection)
        ensures
            self.same(&r),
    {
        self.copy()
    }
}

impl Default for GGGameSelection {
    fn default() -> (r: GGGameSelection)
        ensures
            r.is_blank(),
    {
        GGGameSelection {
            entrant: None,
            id: None,
            order_num: None,
            participant: None,
            selection_type: None,
            selection_value: None,
        }
    }
}

} // verus!
