//! start.gg EntrantConnection, start.gg Entrant.

use vstd::prelude::*;

use crate::field::{text_or_empty, text_field, int_or_zero, int_field, flag_or_false, flag_field};
use crate::structs::event::GGEvent;
use crate::structs::page_info::GGPageInfo;
use crate::structs::participant::GGParticipant;

verus! {

/// Equivalent for start.gg EntrantConnection.
#[derive(Debug)]
pub struct GGEntrantConnection {
    pub nodes: Vec<GGEntrant>,
    pub page_info: Option<Box<GGPageInfo>>,
}

impl GGEntrantConnection {
    /// Whether no field was set, as after a query that requested none.
    pub open spec fn is_blank(&self) -> bool {
        &&& self.nodes@.len() == 0
        &&& self.page_info is None
    }

    /// Whether `other` holds the same values as `self`, field by field and
    /// through every record and list below it.
    pub open spec fn same(&self, other: &GGEntrantConnection) -> bool
        decreases self,
    {
        &&& self.nodes@.len() == other.nodes@.len()
        &&& forall|i: int| 0 <= i < self.nodes@.len() ==> (#[trigger] self.nodes@[i]).same(&other.nodes@[i])
        &&& match (self.page_info, other.page_info) {
            (Some(a), Some(b)) => a.same(&b),
            (None, None) => true,
            _ => false,
        }
    }

    /// Returns a copy of the record.
    pub fn copy(&self) -> (r: GGEntrantConnection)
        ensures
            self.same(&r),
        decreases self,
    {
        GGEntrantConnection {
            nodes: GGEntrant::copy_all(&self.nodes),
            page_info: match &self.page_info {
                Some(b) => Some(Box::new(b.copy())),
                None => None,
            },
        }
    }

    /// Returns the page info of the connection.
    ///
    /// Returns empty page info if not set or wasn't queried.
    pub fn page_info(&self) -> (r: GGPageInfo)
        ensures
            match self.page_info {
                Some(c) => c.same(&r),
                None => r.is_blank(),
            },
    {
        match &self.page_info {
            Some(c) => c.copy(),
            None => GGPageInfo::default(),
        }
    }
}

impl Clone for GGEntrantConnection {
    fn clone(&self) -> (r: GGEntrantConnection)
        ensures
            self.same(&r),
    {
        self.copy()
    }
}

impl Default for GGEntrantConnection {
    fn default() -> (r: GGEntrantConnection)
        ensures
            r.is_blank(),
    {
        GGEntrantConnection {
            nodes: Vec::new(),
            page_info: None,
        }
    }
}

/// Equivalent for start.gg Entrant.
///
/// Each element in the structure is optional, allowing a user to only query values they want.
/// Given each is an option and not a requirement, a method is included for each element with the same name.
/// These methods will unwrap and return the proper value without any unwrapping or references needed.
#[derive(Debug)]
pub struct GGEntrant {
    pub event: Option<Box<GGEvent>>,
    pub id: Option<i64>,
    pub initial_seed_num: Option<i64>,
    pub is_disqualified: Option<bool>,
    pub name: Option<String>,
    pub participants: Option<Vec<GGParticipant>>,
    pub skill: Option<i64>,
}

impl GGEntrant {
    /// Whether no field was set, as after a query that requested none.
    pub open spec fn is_blank(&self) -> bool {
        &&& self.event is None
        &&& self.id is None
        &&& self.initial_seed_num is None
        &&& self.is_disqualified is None
        &&& self.name is None
        &&& self.participants is None
        &&& self.skill is None
    }

    /// Whether `other` holds the same values as `self`, field by field and
    /// through every record and list below it.
    pub open spec fn same(&self, other: &GGEntrant) -> bool
        decreases self,
    {
        &&& match (self.event, other.event) {
            (Some(a), Some(b)) => a.same(&b),
            (None, None) => true,
            _ => false,
        }
        &&& self.id == other.id
        &&& self.initial_seed_num == other.initial_seed_num
        &&& self.is_disqualified == other.is_disqualified
        &&& self.name == other.name
        &&& match (self.participants, other.participants) {
            (Some(a), Some(b)) => a@.len() == b@.len() && forall|i: int|
                0 <= i < a@.len() ==> (#[trigger] a@[i]).same(&b@[i]),
            (None, None) => true,
            _ => false,
        }
        &&& self.skill == other.skill
    }

    /// Returns a copy of the record.
    pub fn copy(&self) -> (r: GGEntrant)
        ensures
            self.same(&r),
        decreases self,
    {
        GGEntrant {
            event: match &self.event {
                Some(b) => Some(Box::new(b.copy())),
                None => None,
            },
            id: self.id,
            initial_seed_num: self.initial_seed_num,
            is_disqualified: self.is_disqualified,
            name: self.name.clone(),
            participants: match &self.participants {
                Some(v) => Some(GGParticipant::copy_all(v)),
                None => None,
            },
            skill: self.skill,
        }
    }

    /// Returns a copy of each record of a list, in order.
    pub fn copy_all(v: &Vec<GGEntrant>) -> (r: Vec<GGEntrant>)
        ensures
            r@.len() == v@.len(),
            forall|i: int| 0 <= i < v@.len() ==> v@[i].same(&(#[trigger] r@[i])),
        decreases v,
    {
        let mut r: Vec<GGEntrant> = Vec::new();
        let mut i: usize = 0;
        while i < v.len()
            invariant
                i <= v@.len(),
                r@.len() == i,
                forall|k: int| 0 <= k < i ==> v@[k].same(&(#[trigger] r@[k])),
            decreases v@.len() - i,
        {
            proof {
                assert(decreases_to!(v => v[i as int]));
            }
            r.push(v[i].copy());
            i = i + 1;
        }
        r
    }

    /// Returns the event the entrant is in.
    ///
    /// Returns an empty event if not set or wasn't queried.
    pub fn event(&self) -> (r: GGEvent)
        ensures
            match self.event {
                Some(c) => c.same(&r),
                None => r.is_blank(),
            },
    {
        match &self.event {
            Some(c) => c.copy(),
            None => GGEvent::default(),
        }
    }

    /// Returns the id of the entrant.
    ///
    /// Returns zero if not set or wasn't queried.
    pub fn id(&self) -> (r: i64)
        ensures
            r == int_or_zero(self.id),
    {
        int_field(self.id)
    }

    /// Returns the initial seed of the entrant.
    ///
    /// Returns zero if not set or wasn't queried.
    pub fn initial_seed_num(&self) -> (r: i64)
        ensures
            r == int_or_zero(self.initial_seed_num),
    {
        int_field(self.initial_seed_num)
    }

    /// Returns if the entrant is disqualified.
    ///
    /// Returns false if not set or wasn't queried.
    pub fn is_disqualified(&self) -> (r: bool)
        ensures
            r == flag_or_false(self.is_disqualified),
    {
        flag_field(self.is_disqualified)
    }

    /// Returns the name of the entrant.
    ///
    /// Returns an empty string if not set or wasn't queried.
    pub fn name(&self) -> (r: String)
        ensures
            r@ == text_or_empty(self.name),
    {
        text_field(&self.name)
    }

    /// Returns the participants associated with the entrant.
    ///
    /// Returns an empty vector if not set or wasn't queried.
    pub fn participants(&self) -> (r: Vec<GGParticipant>)
        ensures
            match self.participants {
                Some(v) => {
                    &&& r@.len() == v@.len()
                    &&& forall|i: int| 0 <= i < v@.len() ==> v@[i].same(&(#[trigger] r@[i]))
                },
                None => r@.len() == 0,
            },
    {
        match &self.participants {
            Some(v) => GGParticipant::copy_all(v),
            None => Vec::new(),
        }
    }

    /// Returns the skill of the entrant.
    ///
    /// Returns zero if not set or wasn't queried.
    pub fn skill(&self) -> (r: i64)
        ensures
            r == int_or_zero(self.skill),
    {
        int_field(self.skill)
    }
}

impl Clone for GGEntrant {
    fn clone(&self) -> (r: GGEntrant)
        ensures
            self.same(&r),
    {
        self.copy()
    }
}

impl Default for GGEntrant {
    fn default() -> (r: GGEntrant)
        ensures
            r.is_blank(),
    {
        GGEntrant {
            event: None,
            id: None,
            initial_seed_num: None,
            is_disqualified: None,
            name: None,
            participants: None,
            skill: None,
        }
    }
}

} // verus!
