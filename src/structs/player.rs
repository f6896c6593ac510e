//! start.gg Player.

use vstd::prelude::*;

use crate::field::{text_or_empty, text_field, int_or_zero, int_field};
use crate::structs::user::GGUser;

verus! {

/// Equivalent for start.gg Player.
///
/// Each element in the structure is optional, allowing a user to only query values they want.
/// Given each is an option and not a requirement, a method is included for each element with the same name.
/// These methods will unwrap and return the proper value without any unwrapping or references needed.
#[derive(Debug)]
pub struct GGPlayer {
    pub gamer_tag: Option<String>,
    pub id: Option<i64>,
    pub prefix: Option<String>,
    pub user: Option<Box<GGUser>>,
}

impl GGPlayer {
    /// Whether no field was set, as after a query that requested none.
    pub open spec fn is_blank(&self) -> bool {
        &&& self.gamer_tag is None
        &&& self.id is None
        &&& self.prefix is None
        &&& self.user is None
    }

    /// Whether `other` holds the same values as `self`, field by field and
    /// through every record and list below it.
    pub open spec fn same(&self, other: &GGPlayer) -> bool
        decreases self,
    {
        &&& self.gamer_tag == other.gamer_tag
        &&& self.id == other.id
        &&& self.prefix == other.prefix
        &&& match (self.user, other.user) {
            (Some(a), Some(b)) => a.same(&b),
            (None, None) => true,
            _ => false,
        }
    }

    /// Returns a copy of the record.
    pub fn copy(&self) -> (r: GGPlayer)
        ensures
            self.same(&r),
        decreases self,
    {
        GGPlayer {
            gamer_tag: self.gamer_tag.clone(),
            id: self.id,
            prefix: self.prefix.clone(),
            user: match &self.user {
                Some(b) => Some(Box::new(b.copy())),
                None => None,
            },
        }
    }

    /// Returns a copy of each record of a list, in order.
    pub fn copy_all(v: &Vec<GGPlayer>) -> (r: Vec<GGPlayer>)
        ensures
            r@.len() == v@.len(),
            forall|i: int| 0 <= i < v@.len() ==> v@[i].same(&(#[trigger] r@[i])),
        decreases v,
    {
        let mut r: Vec<GGPlayer> = Vec::new();
        let mut i: usize = 0;
        while i < v.len()
            invariant
                i <= v@.len(),
                r@.len() == i,
                forall|k: int| 0 <= k < i ==> v@[k].same(&(#[trigger] r@[k])),
            decreases v@.len() - i,
        {
            proof {
                assert(decreases_to!(v => v[i as int]));
            }
            r.push(v[i].copy());
            i = i + 1;
        }
        r
    }

    /// Returns the gamer tag of the player.
    ///
    /// Returns an empty string if not set or wasn't queried.
    pub fn gamer_tag(&self) -> (r: String)
        ensures
            r@ == text_or_empty(self.gamer_tag),
    {
        text_field(&self.gamer_tag)
    }

    /// Returns the id of the player.
    ///
    /// Returns zero if not set or wasn't queried.
    pub fn id(&self) -> (r: i64)
        ensures
            r == int_or_zero(self.id),
    {
        int_field(self.id)
    }

    /// Returns the prefix of the player.
    ///
    /// Returns an empty string if not set or wasn't queried.
    pub fn prefix(&self) -> (r: String)
        ensures
            r@ == text_or_empty(self.prefix),
    {
        text_field(&self.prefix)
    }

    /// Returns the user of the player.
    ///
    /// Returns an empty user if not set or wasn't queried.
    pub fn user(&self) -> (r: GGUser)
        ensures
            match self.user {
                Some(c) => c.same(&r),
                None => r.is_blank(),
            },
    {
        match &self.user {
            Some(c) => c.copy(),
            None => GGUser::default(),
        }
    }
}

impl Clone for GGPlayer {
    fn clone(&self) -> (r: GGPlayer)
        ensures
            self.same(&r),
    {
        self.copy()
    }
}

impl Default for GGPlayer {
    fn default() -> (r: GGPlayer)
        ensures
            r.is_blank(),
    {
        GGPlayer {
            gamer_tag: None,
            id: None,
            prefix: None,
            user: None,
        }
    }
}

} // verus!
