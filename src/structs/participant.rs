//! start.gg Participants, start.gg Participant.

use vstd::prelude::*;

use crate::field::{text_or_empty, text_field, int_or_zero, int_field, flag_or_false, flag_field};
use crate::structs::entrant::GGEntrant;
use crate::structs::event::GGEvent;
use crate::structs::user::GGUser;
use crate::timestamp::GGTimestamp;

verus! {

/// Equivalent for start.gg Participants.
#[derive(Debug)]
pub struct GGParticipants {
    pub nodes: Vec<GGParticipant>,
}

impl GGParticipants {
    /// Whether no field was set, as after a query that requested none.
    pub open spec fn is_blank(&self) -> bool {
        &&& self.nodes@.len() == 0
    }

    /// Whether `other` holds the same values as `self`, field by field and
    /// through every record and list below it.
    pub open spec fn same(&self, other: &GGParticipants) -> bool
        decreases self,
    {
        &&& self.nodes@.len() == other.nodes@.len()
        &&& forall|i: int| 0 <= i < self.nodes@.len() ==> (#[trigger] self.nodes@[i]).same(&other.nodes@[i])
    }

    /// Returns a copy of the record.
    pub fn copy(&self) -> (r: GGParticipants)
        ensures
            self.same(&r),
        decreases self,
    {
        GGParticipants {
            nodes: GGParticipant::copy_all(&self.nodes),
        }
    }
}

impl Clone for GGParticipants {
    fn clone(&self) -> (r: GGParticipants)
        ensures
            self.same(&r),
    {
        self.copy()
    }
}

impl Default for GGParticipants {
    fn default() -> (r: GGParticipants)
        ensures
            r.is_blank(),
    {
        GGParticipants {
            nodes: Vec::new(),
        }
    }
}

/// Equivalent for start.gg Participant.
///
/// Each element in the structure is optional, allowing a user to only query values they want.
/// Given each is an option and not a requirement, a method is included for each element with the same name.
/// These methods will unwrap and return the proper value without any unwrapping or references needed.
#[derive(Debug)]
pub struct GGParticipant {
    pub checked_in: Option<bool>,
    pub checked_in_at: Option<i64>,
    pub email: Option<String>,
    pub entrants: Option<Vec<GGEntrant>>,
    pub events: Option<Vec<GGEvent>>,
    pub gamer_tag: Option<String>,
    pub id: Option<i64>,
    pub prefix: Option<String>,
    pub user: Option<Box<GGUser>>,
    pub verified: Option<bool>,
}

impl GGParticipant {
    /// Whether no field was set, as after a query that requested none.
    pub open spec fn is_blank(&self) -> bool {
        &&& self.checked_in is None
        &&& self.checked_in_at is None
        &&& self.email is None
        &&& self.entrants is None
        &&& self.events is None
        &&& self.gamer_tag is None
        &&& self.id is None
        &&& self.prefix is None
        &&& self.user is None
        &&& self.verified is None
    }

    /// Whether `other` holds the same values as `self`, field by field and
    /// through every record and list below it.
    pub open spec fn same(&self, other: &GGParticipant) -> bool
        decreases self,
    {
        &&& self.checked_in == other.checked_in
        &&& self.checked_in_at == other.checked_in_at
        &&& self.email == other.email
        &&& match (self.entrants, other.entrants) {
            (Some(a), Some(b)) => a@.len() == b@.len() && forall|i: int|
                0 <= i < a@.len() ==> (#[trigger] a@[i]).same(&b@[i]),
            (None, None) => true,
            _ => false,
        }
        &&& match (self.events, other.events) {
            (Some(a), Some(b)) => a@.len() == b@.len() && forall|i: int|
                0 <= i < a@.len() ==> (#[trigger] a@[i]).same(&b@[i]),
            (None, None) => true,
            _ => false,
        }
        &&& self.gamer_tag == other.gamer_tag
        &&& self.id == other.id
        &&& self.prefix == other.prefix
        &&& match (self.user, other.user) {
            (Some(a), Some(b)) => a.same(&b),
            (None, None) => true,
            _ => false,
        }
        &&& self.verified == other.verified
    }

    /// Returns a copy of the record.
    pub fn copy(&self) -> (r: GGParticipant)
        ensures
            self.same(&r),
        decreases self,
    {
        GGParticipant {
            checked_in: self.checked_in,
            checked_in_at: self.checked_in_at,
            email: self.email.clone(),
            entrants: match &self.entrants {
                Some(v) => Some(GGEntrant::copy_all(v)),
                None => None,
            },
            events: match &self.events {
                Some(v) => Some(GGEvent::copy_all(v)),
                None => None,
            },
            gamer_tag: self.gamer_tag.clone(),
            id: self.id,
            prefix: self.prefix.clone(),
            user: match &self.user {
                Some(b) => Some(Box::new(b.copy())),
                None => None,
            },
            verified: self.verified,
        }
    }

    /// Returns a copy of each record of a list, in order.
    pub fn copy_all(v: &Vec<GGParticipant>) -> (r: Vec<GGParticipant>)
        ensures
            r@.len() == v@.len(),
            forall|i: int| 0 <= i < v@.len() ==> v@[i].same(&(#[trigger] r@[i])),
        decreases v,
    {
        let mut r: Vec<GGParticipant> = Vec::new();
        let mut i: usize = 0;
        while i < v.len()
            invariant
                i <= v@.len(),
                r@.len() == i,
                forall|k: int| 0 <= k < i ==> v@[k].same(&(#[trigger] r@[k])),
            decreases v@.len() - i,
        {
            proof {
                assert(decreases_to!(v => v[i as int]));
            }
            r.push(v[i].copy());
            i = i + 1;
        }
        r
    }

    /// Returns if the participant is checked in.
    ///
    /// Returns false if not set or wasn't queried.
    pub fn checked_in(&self) -> (r: bool)
        ensures
            r == flag_or_false(self.checked_in),
    {
        flag_field(self.checked_in)
    }

    /// Returns the time the participant checked in at.
    ///
    /// Returns zero if not set or wasn't queried.
    pub fn checked_in_at(&self) -> (r: GGTimestamp)
        ensures
            r.seconds == int_or_zero(self.checked_in_at),
    {
        GGTimestamp { seconds: int_field(self.checked_in_at) }
    }

    /// Returns the email of the participant.
    ///
    /// Returns an empty string if not set or wasn't queried.
    pub fn email(&self) -> (r: String)
        ensures
            r@ == text_or_empty(self.email),
    {
        text_field(&self.email)
    }

    /// Returns the entrants associated with the participant.
    ///
    /// Returns an empty vector if not set or wasn't queried.
    pub fn entrants(&self) -> (r: Vec<GGEntrant>)
        ensures
            match self.entrants {
                Some(v) => {
                    &&& r@.len() == v@.len()
                    &&& forall|i: int| 0 <= i < v@.len() ==> v@[i].same(&(#[trigger] r@[i]))
                },
                None => r@.len() == 0,
            },
    {
        match &self.entrants {
            Some(v) => GGEntrant::copy_all(v),
            None => Vec::new(),
        }
    }

    /// Returns the events associated with the participant.
    ///
    /// Returns an empty vector if not set or wasn't queried.
    pub fn events(&self) -> (r: Vec<GGEvent>)
        ensures
            match self.events {
                Some(v) => {
                    &&& r@.len() == v@.len()
                    &&& forall|i: int| 0 <= i < v@.len() ==> v@[i].same(&(#[trigger] r@[i]))
                },
                None => r@.len() == 0,
            },
    {
        match &self.events {
            Some(v) => GGEvent::copy_all(v),
            None => Vec::new(),
        }
    }

    /// Returns the gamer tag of the participant.
    ///
    /// Returns an empty string if not set or wasn't queried.
    pub fn gamer_tag(&self) -> (r: String)
        ensures
            r@ == text_or_empty(self.gamer_tag),
    {
        text_field(&self.gamer_tag)
    }

    /// Returns the id of the participant.
    ///
    /// Returns zero if not set or wasn't queried.
    pub fn id(&self) -> (r: i64)
        ensures
            r == int_or_zero(self.id),
    {
        int_field(self.id)
    }

    /// Returns the prefix of the participant.
    ///
    /// Returns an empty string if not set or wasn't queried.
    pub fn prefix(&self) -> (r: String)
        ensures
            r@ == text_or_empty(self.prefix),
    {
        text_field(&self.prefix)
    }

    /// Returns the user of the participant.
    ///
    /// Returns an empty tournament if not set or wasn't queried.
    pub fn user(&self) -> (r: GGUser)
        ensures
            match self.user {
                Some(c) => c.same(&r),
                None => r.is_blank(),
            },
    {
        match &self.user {
            Some(c) => c.copy(),
            None => GGUser::default(),
        }
    }

    /// Returns if the participant is verified.
    ///
    /// Returns false if not set or wasn't queried.
    pub fn verified(&self) -> (r: bool)
        ensures
            r == flag_or_false(self.verified),
    {
        flag_field(self.verified)
    }
}

impl Clone for GGParticipant {
    fn clone(&self) -> (r: GGParticipant)
        ensures
            self.same(&r),
    {
        self.copy()
    }
}

impl Default for GGParticipant {
    fn default() -> (r: GGParticipant)
        ensures
            r.is_blank(),
    {
        GGParticipant {
            checked_in: None,
            checked_in_at: None,
            email: None,
            entrants: None,
            events: None,
            gamer_tag: None,
            id: None,
            prefix: None,
            user: None,
            verified: None,
        }
    }
}

} // verus!
