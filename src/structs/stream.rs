//! start.gg Stream.

use vstd::prelude::*;

use crate::field::{text_or_empty, text_field, int_or_zero, int_field, flag_or_false, flag_field};

verus! {

/// Equivalent for start.gg Stream.
///
/// Each element in the structure is optional, allowing a user to only query values they want.
/// Given each is an option and not a requirement, a method is included for each element with the same name.
/// These methods will unwrap and return the proper value without any unwrapping or references needed.
#[derive(Debug)]
pub struct GGStream {
    pub id: Option<i64>,
    pub is_online: Option<bool>,
    pub name: Option<String>,
    pub type_: Option<i64>,
}

impl GGStream {
    /// Whether no field was set, as after a query that requested none.
    pub open spec fn is_blank(&self) -> bool {
        &&& self.id is None
        &&& self.is_online is None
        &&& self.name is None
        &&& self.type_ is None
    }

    /// Whether `other` holds the same values as `self`, field by field and
    /// through every record and list below it.
    pub open spec fn same(&self, other: &GGStream) -> bool
        decreases self,
    {
        &&& self.id == other.id
        &&& self.is_online == other.is_online
        &&& self.name == other.name
        &&& self.type_ == other.type_
    }

    /// Returns a copy of the record.
    pub fn copy(&self) -> (r: GGStream)
        ensures
            self.same(&r),
            r == *self,
        decreases self,
    {
        GGStream {
            id: self.id,
            is_online: self.is_online,
            name: self.name.clone(),
            type_: self.type_,
        }
    }

    /// Returns the id of the stream.
    ///
    /// Returns zero if not set or wasn't queried.
    pub fn id(&self) -> (r: i64)
        ensures
            r == int_or_zero(self.id),
    {
        int_field(self.id)
    }

    /// Returns if the stream is online.
    ///
    /// Returns zero if not set or wasn't queried.
    pub fn is_online(&self) -> (r: bool)
        ensures
            r == flag_or_false(self.is_online),
    {
        flag_field(self.is_online)
    }

    /// Returns the name of the stream.
    ///
    /// Returns an empty string if not set or wasn't queried.
    pub fn name(&self) -> (r: String)
        ensures
            r@ == text_or_empty(self.name),
    {
        text_field(&self.name)
    }

    /// Returns the type of the stream.
    ///
    /// Returns zero if not set or wasn't queried.
    pub fn type_(&self) -> (r: i64)
        ensures
            r == int_or_zero(self.type_),
    {
        int_field(self.type_)
    }
}

impl Clone for GGStream {
    fn clone(&self) -> (r: GGStream)
        ensures
            self.same(&r),
            r == *self,
    {
        self.copy()
    }
}

impl Default for GGStream {
    fn default() -> (r: GGStream)
        ensures
            r.is_blank(),
    {
        GGStream {
            id: None,
            is_online: None,
            name: None,
            type_: None,
        }
    }
}

} // verus!
