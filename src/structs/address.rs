//! start.gg Address.

use vstd::prelude::*;

use crate::field::{text_or_empty, text_field, int_or_zero, int_field};

verus! {

/// Equivalent for start.gg Address.
///
/// Each element in the structure is optional, allowing a user to only query values they want.
/// Given each is an option and not a requirement, a method is included for each element with the same name.
/// These methods will unwrap and return the proper value without any unwrapping or references needed.
#[derive(Debug)]
pub struct GGAddress {
    pub city: Option<String>,
    pub country: Option<String>,
    pub country_id: Option<i64>,
    pub id: Option<i64>,
    pub state: Option<String>,
    pub state_id: Option<i64>,
}

impl GGAddress {
    /// Whether no field was set, as after a query that requested none.
    pub open spec fn is_blank(&self) -> bool {
        &&& self.city is None
        &&& self.country is None
        &&& self.country_id is None
        &&& self.id is None
        &&& self.state is None
        &&& self.state_id is None
    }

    /// Whether `other` holds the same values as `self`, field by field and
    /// through every record and list below it.
    pub open spec fn same(&self, other: &GGAddress) -> bool
        decreases self,
    {
        &&& self.city == other.city
        &&& self.country == other.country
        &&& self.country_id == other.country_id
        &&& self.id == other.id
        &&& self.state == other.state
        &&& self.state_id == other.state_id
    }

    /// Returns a copy of the record.
    pub fn copy(&self) -> (r: GGAddress)
        ensures
            self.same(&r),
            r == *self,
        decreases self,
    {
        GGAddress {
            city: self.city.clone(),
            country: self.country.clone(),
            country_id: self.country_id,
            id: self.id,
            state: self.state.clone(),
            state_id: self.state_id,
        }
    }

    /// Returns the city of the address.
    ///
    /// Returns an empty string if not set or wasn't queried.
    pub fn city(&self) -> (r: String)
        ensures
            r@ == text_or_empty(self.city),
    {
        text_field(&self.city)
    }

    /// Returns the country of the address.
    ///
    /// Returns an empty string if not set or wasn't queried.
    pub fn country(&self) -> (r: String)
        ensures
            r@ == text_or_empty(self.country),
    {
        text_field(&self.country)
    }

    /// Returns the country id of the address.
    ///
    /// Returns zero if not set or wasn't queried.
    pub fn country_id(&self) -> (r: i64)
        ensures
            r == int_or_zero(self.country_id),
    {
        int_field(self.country_id)
    }

    /// Returns the id of the address.
    ///
    /// Returns zero if not set or wasn't queried.
    pub fn id(&self) -> (r: i64)
        ensures
            r == int_or_zero(self.id),
    {
        int_field(self.id)
    }

    /// Returns the state of the address.
    ///
    /// Returns an empty string if not set or wasn't queried.
    pub fn state(&self) -> (r: String)
        ensures
            r@ == text_or_empty(self.state),
    {
        text_field(&self.state)
    }

    /// Returns the state id of the address.
    ///
    /// Returns zero if not set or wasn't queried.
    pub fn state_id(&self) -> (r: i64)
        ensures
            r == int_or_zero(self.state_id),
    {
        int_field(self.state_id)
    }
}

impl Clone for GGAddress {
    fn clone(&self) -> (r: GGAddress)
        ensures
            self.same(&r),
            r == *self,
    {
        self.copy()
    }
}

impl Default for GGAddress {
    fn default() -> (r: GGAddress)
        ensures
            r.is_blank(),
    {
        GGAddress {
            city: None,
            country: None,
            country_id: None,
            id: None,
            state: None,
            state_id: None,
        }
    }
}

} // verus!
