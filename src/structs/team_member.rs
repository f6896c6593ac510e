//! start.gg TeamMember.

use vstd::prelude::*;

use crate::field::{int_or_zero, int_field, flag_or_false, flag_field};
use crate::structs::participant::GGParticipant;
use crate::structs::player::GGPlayer;

verus! {

/// Equivalent for start.gg TeamMember.
///
/// Each element in the structure is optional, allowing a user to only query values they want.
/// Given each is an option and not a requirement, a method is included for each element with the same name.
/// These methods will unwrap and return the proper value without any unwrapping or references needed.
#[derive(Debug)]
pub struct GGTeamMember {
    pub id: Option<i64>,
    pub is_alternate: Option<bool>,
    pub is_captain: Option<bool>,
    pub member_type: Option<i64>,
    pub participant: Option<Box<GGParticipant>>,
    pub player: Option<Box<GGPlayer>>,
    pub status: Option<i64>,
}

impl GGTeamMember {
    /// Whether no field was set, as after a query that requested none.
    pub open spec fn is_blank(&self) -> bool {
        &&& self.id is None
        &&& self.is_alternate is None
        &&& self.is_captain is None
        &&& self.member_type is None
        &&& self.participant is None
        &&& self.player is None
        &&& self.status is None
    }

    /// Whether `other` holds the same values as `self`, field by field and
    /// through every record and list below it.
    pub open spec fn same(&self, other: &GGTeamMember) -> bool
        decreases self,
    {
        &&& self.id == other.id
        &&& self.is_alternate == other.is_alternate
        &&& self.is_captain == other.is_captain
        &&& self.member_type == other.member_type
        &&& match (self.participant, other.participant) {
            (Some(a), Some(b)) => a.same(&b),
            (None, None) => true,
            _ => false,
        }
        &&& match (self.player, other.player) {
            (Some(a), Some(b)) => a.same(&b),
            (None, None) => true,
            _ => false,
        }
        &&& self.status == other.status
    }

    /// Returns a copy of the record.
    pub fn copy(&self) -> (r: GGTeamMember)
        ensures
            self.same(&r),
        decreases self,
    {
        GGTeamMember {
            id: self.id,
            is_alternate: self.is_alternate,
            is_captain: self.is_captain,
            member_type: self.member_type,
            participant: match &self.participant {
                Some(b) => Some(Box::new(b.copy())),
                None => None,
            },
            player: match &self.player {
                Some(b) => Some(Box::new(b.copy())),
                None => None,
            },
            status: self.status,
        }
    }

    /// Returns a copy of each record of a list, in order.
    pub fn copy_all(v: &Vec<GGTeamMember>) -> (r: Vec<GGTeamMember>)
        ensures
            r@.len() == v@.len(),
            forall|i: int| 0 <= i < v@.len() ==> v@[i].same(&(#[trigger] r@[i])),
        decreases v,
    {
        let mut r: Vec<GGTeamMember> = Vec::new();
        let mut i: usize = 0;
        while i < v.len()
            invariant
                i <= v@.len(),
                r@.len() == i,
                forall|k: int| 0 <= k < i ==> v@[k].same(&(#[trigger] r@[k])),
            decreases v@.len() - i,
        {
            proof {
                assert(decreases_to!(v => v[i as int]));
            }
            r.push(v[i].copy());
            i = i + 1;
        }
        r
    }

    /// Returns the id of the team member.
    ///
    /// Returns zero if not set or wasn't queried.
    pub fn id(&self) -> (r: i64)
        ensures
            r == int_or_zero(self.id),
    {
        int_field(self.id)
    }

    /// Returns if the team member is an alternate.
    ///
    /// Returns false if not set or wasn't queried.
    pub fn is_alternate(&self) -> (r: bool)
        ensures
            r == flag_or_false(self.is_alternate),
    {
        flag_field(self.is_alternate)
    }

    /// Returns if the team member is a captain.
    ///
    /// Returns false if not set or wasn't queried.
    pub fn is_captain(&self) -> (r: bool)
        ensures
            r == flag_or_false(self.is_captain),
    {
        flag_field(self.is_captain)
    }

    /// Returns the member type of the team member.
    ///
    /// Returns zero if not set or wasn't queried.
    pub fn member_type(&self) -> (r: i64)
        ensures
            r == int_or_zero(self.member_type),
    {
        int_field(self.member_type)
    }

    /// Returns the participant of the team member.
    ///
    /// Returns an empty participant if not set or wasn't queried.
    pub fn participant(&self) -> (r: GGParticipant)
        ensures
            match self.participant {
                Some(c) => c.same(&r),
                None => r.is_blank(),
            },
    {
        match &self.participant {
            Some(c) => c.copy(),
            None => GGParticipant::default(),
        }
    }

    /// Returns the player of the team member.
    ///
    /// Returns an empty player if not set or wasn't queried.
    pub fn player(&self) -> (r: GGPlayer)
        ensures
            match self.player {
                Some(c) => c.same(&r),
                None => r.is_blank(),
            },
    {
        match &self.player {
            Some(c) => c.copy(),
            None => GGPlayer::default(),
        }
    }

    /// Returns the status of the team member.
    ///
    /// Returns zero if not set or wasn't queried.
    pub fn status(&self) -> (r: i64)
        ensures
            r == int_or_zero(self.status),
    {
        int_field(self.status)
    }
}

impl Clone for GGTeamMember {
    fn clone(&self) -> (r: GGTeamMember)
        ensures
            self.same(&r),
    {
        self.copy()
    }
}

impl Default for GGTeamMember {
    fn default() -> (r: GGTeamMember)
        ensures
            r.is_blank(),
    {
        GGTeamMember {
            id: None,
            is_alternate: None,
            is_captain: None,
            member_type: None,
            participant: None,
            player: None,
            status: None,
        }
    }
}

} // verus!
