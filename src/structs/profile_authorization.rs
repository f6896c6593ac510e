//! start.gg ProfileAuthorization.

use vstd::prelude::*;

use crate::field::{text_or_empty, text_field, int_or_zero, int_field};
use crate::structs::stream::GGStream;

verus! {

/// Equivalent for start.gg ProfileAuthorization.
///
/// Each element in the structure is optional, allowing a user to only query values they want.
/// Given each is an option and not a requirement, a method is included for each element with the same name.
/// These methods will unwrap and return the proper value without any unwrapping or references needed.
#[derive(Debug)]
pub struct GGProfileAuthorization {
    pub external_id: Option<String>,
    pub external_username: Option<String>,
    pub id: Option<i64>,
    pub stream: Option<Box<GGStream>>,
    pub type_: Option<i64>,
}

impl GGProfileAuthorization {
    /// Whether no field was set, as after a query that requested none.
    pub open spec fn is_blank(&self) -> bool {
        &&& self.external_id is None
        &&& self.external_username is None
        &&& self.id is None
        &&& self.stream is None
        &&& self.type_ is None
    }

    /// Whether `other` holds the same values as `self`, field by field and
    /// through every record and list below it.
    pub open spec fn same(&self, other: &GGProfileAuthorization) -> bool
        decreases self,
    {
        &&& self.external_id == other.external_id
        &&& self.external_username == other.external_username
        &&& self.id == other.id
        &&& match (self.stream, other.stream) {
            (Some(a), Some(b)) => a.same(&b),
            (None, None) => true,
            _ => false,
        }
        &&& self.type_ == other.type_
    }

    /// Returns a copy of the record.
    pub fn copy(&self) -> (r: GGProfileAuthorization)
        ensures
            self.same(&r),
        decreases self,
    {
        GGProfileAuthorization {
            external_id: self.external_id.clone(),
            external_username: self.external_username.clone(),
            id: self.id,
            stream: match &self.stream {
                Some(b) => Some(Box::new(b.copy())),
                None => None,
            },
            type_: self.type_,
        }
    }

    /// Returns the external id of the profile authorization.
    ///
    /// Returns an empty string if not set or wasn't queried.
    pub fn external_id(&self) -> (r: String)
        ensures
            r@ == text_or_empty(self.external_id),
    {
        text_field(&self.external_id)
    }

    /// Returns the external username of the profile authorization.
    ///
    /// Returns an empty string if not set or wasn't queried.
    pub fn external_username(&self) -> (r: String)
        ensures
            r@ == text_or_empty(self.external_username),
    {
        text_field(&self.external_username)
    }

    /// Returns the id of the profile authorization.
    ///
    /// Returns zero if not set or wasn't queried.
    pub fn id(&self) -> (r: i64)
        ensures
            r == int_or_zero(self.id),
    {
        int_field(self.id)
    }

    /// Returns the stream of the profile authorization.
    ///
    /// Returns an empty stream if not set or wasn't queried.
    pub fn stream(&self) -> (r: GGStream)
        ensures
            match self.stream {
                Some(c) => c.same(&r),
                None => r.is_blank(),
            },
    {
        match &self.stream {
            Some(c) => c.copy(),
            None => GGStream::default(),
        }
    }

    /// Returns the type of the profile authorization.
    ///
    /// Returns zero if not set or wasn't queried.
    pub fn type_(&self) -> (r: i64)
        ensures
            r == int_or_zero(self.type_),
    {
        int_field(self.type_)
    }
}

impl Clone for GGProfileAuthorization {
    fn clone(&self) -> (r: GGProfileAuthorization)
        ensures
            self.same(&r),
    {
        self.copy()
    }
}

impl Default for GGProfileAuthorization {
    fn default() -> (r: GGProfileAuthorization)
        ensures
            r.is_blank(),
    {
        GGProfileAuthorization {
            external_id: None,
            external_username: None,
            id: None,
            stream: None,
            type_: None,
        }
    }
}

} // verus!
