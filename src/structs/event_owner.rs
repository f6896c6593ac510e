//! start.gg EventOwnerConnection, start.gg EventOwner.

use vstd::prelude::*;

use crate::field::{text_or_empty, text_field, int_or_zero, int_field};
use crate::structs::page_info::GGPageInfo;

verus! {

/// Equivalent for start.gg EventOwnerConnection.
#[derive(Debug)]
pub struct GGEventOwnerConnection {
    pub nodes: Vec<GGEventOwner>,
    pub page_info: Option<Box<GGPageInfo>>,
}

impl GGEventOwnerConnection {
    /// Whether no field was set, as after a query that requested none.
    pub open spec fn is_blank(&self) -> bool {
        &&& self.nodes@.len() == 0
        &&& self.page_info is None
    }

    /// Whether `other` holds the same values as `self`, field by field and
    /// through every record and list below it.
    pub open spec fn same(&self, other: &GGEventOwnerConnection) -> bool
        decreases self,
    {
        &&& self.nodes@.len() == other.nodes@.len()
        &&& forall|i: int| 0 <= i < self.nodes@.len() ==> (#[trigger] self.nodes@[i]).same(&other.nodes@[i])
        &&& match (self.page_info, other.page_info) {
            (Some(a), Some(b)) => a.same(&b),
            (None, None) => true,
            _ => false,
        }
    }

    /// Returns a copy of the record.
    pub fn copy(&self) -> (r: GGEventOwnerConnection)
        ensures
            self.same(&r),
        decreases self,
    {
        GGEventOwnerConnection {
            nodes: GGEventOwner::copy_all(&self.nodes),
            page_info: match &self.page_info {
                Some(b) => Some(Box::new(b.copy())),
                None => None,
            },
        }
    }

    /// Returns the page info of the connection.
    ///
    /// Returns empty page info if not set or wasn't queried.
    pub fn page_info(&self) -> (r: GGPageInfo)
        ensures
            match self.page_info {
                Some(c) => c.same(&r),
                None => r.is_blank(),
            },
    {
        match &self.page_info {
            Some(c) => c.copy(),
            None => GGPageInfo::default(),
        }
    }
}

impl Clone for GGEventOwnerConnection {
    fn clone(&self) -> (r: GGEventOwnerConnection)
        ensures
            self.same(&r),
    {
        self.copy()
    }
}

impl Default for GGEventOwnerConnection {
    fn default() -> (r: GGEventOwnerConnection)
        ensures
            r.is_blank(),
    {
        GGEventOwnerConnection {
            nodes: Vec::new(),
            page_info: None,
        }
    }
}

/// Equivalent for start.gg EventOwner.
///
/// Each element in the structure is optional, allowing a user to only query values they want.
/// Given each is an option and not a requirement, a method is included for each element with the same name.
/// These methods will unwrap and return the proper value without any unwrapping or references needed.
#[derive(Debug)]
pub struct GGEventOwner {
    pub email: Option<String>,
    pub event_id: Option<i64>,
    pub gamer_tag: Option<String>,
    pub full_name: Option<String>,
}

impl GGEventOwner {
    /// Whether no field was set, as after a query that requested none.
    pub open spec fn is_blank(&self) -> bool {
        &&& self.email is None
        &&& self.event_id is None
        &&& self.gamer_tag is None
        &&& self.full_name is None
    }

    /// Whether `other` holds the same values as `self`, field by field and
    /// through every record and list below it.
    pub open spec fn same(&self, other: &GGEventOwner) -> bool
        decreases self,
    {
        &&& self.email == other.email
        &&& self.event_id == other.event_id
        &&& self.gamer_tag == other.gamer_tag
        &&& self.full_name == other.full_name
    }

    /// Returns a copy of the record.
    pub fn copy(&self) -> (r: GGEventOwner)
        ensures
            self.same(&r),
            r == *self,
        decreases self,
    {
        GGEventOwner {
            email: self.email.clone(),
            event_id: self.event_id,
            gamer_tag: self.gamer_tag.clone(),
            full_name: self.full_name.clone(),
        }
    }

    /// Returns a copy of each record of a list, in order.
    pub fn copy_all(v: &Vec<GGEventOwner>) -> (r: Vec<GGEventOwner>)
        ensures
            r@.len() == v@.len(),
            forall|i: int| 0 <= i < v@.len() ==> v@[i].same(&(#[trigger] r@[i])),
        decreases v,
    {
        let mut r: Vec<GGEventOwner> = Vec::new();
        let mut i: usize = 0;
        while i < v.len()
            invariant
                i <= v@.len(),
                r@.len() == i,
                forall|k: int| 0 <= k < i ==> v@[k].same(&(#[trigger] r@[k])),
            decreases v@.len() - i,
        {
            proof {
                assert(decreases_to!(v => v[i as int]));
            }
            r.push(v[i].copy());
            i = i + 1;
        }
        r
    }

    /// Returns the email of the event owner.
    ///
    /// Returns an empty string if not set or wasn't queried.
    pub fn email(&self) -> (r: String)
        ensures
            r@ == text_or_empty(self.email),
    {
        text_field(&self.email)
    }

    /// Returns the event id of the event owner.
    ///
    /// Returns zero if not set or wasn't queried.
    pub fn event_id(&self) -> (r: i64)
        ensures
            r == int_or_zero(self.event_id),
    {
        int_field(self.event_id)
    }

    /// Returns the gamer tag of the event owner.
    ///
    /// Returns an empty string if not set or wasn't queried.
    pub fn gamer_tag(&self) -> (r: String)
        ensures
            r@ == text_or_empty(self.gamer_tag),
    {
        text_field(&self.gamer_tag)
    }

    /// Returns the full name of the event owner.
    ///
    /// Returns an empty string if not set or wasn't queried.
    pub fn full_name(&self) -> (r: String)
        ensures
            r@ == text_or_empty(self.full_name),
    {
        text_field(&self.full_name)
    }
}

impl Clone for GGEventOwner {
    fn clone(&self) -> (r: GGEventOwner)
        ensures
            self.same(&r),
            r == *self,
    {
        self.copy()
    }
}

impl Default for GGEventOwner {
    fn default() -> (r: GGEventOwner)
        ensures
            r.is_blank(),
    {
        GGEventOwner {
            email: None,
            event_id: None,
            gamer_tag: None,
            full_name: None,
        }
    }
}

} // verus!
