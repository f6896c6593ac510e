//! start.gg ContactInfo.

use vstd::prelude::*;

use crate::field::{text_or_empty, text_field, int_or_zero, int_field};

verus! {

/// Equivalent for start.gg ContactInfo.
///
/// Each element in the structure is optional, allowing a user to only query values they want.
/// Given each is an option and not a requirement, a method is included for each element with the same name.
/// These methods will unwrap and return the proper value without any unwrapping or references needed.
#[derive(Debug)]
pub struct GGContactInfo {
    pub city: Option<String>,
    pub country: Option<String>,
    pub country_id: Option<i64>,
    pub id: Option<i64>,
    pub name: Option<String>,
    pub name_first: Option<String>,
    pub name_last: Option<String>,
    pub state: Option<String>,
    pub state_id: Option<i64>,
    pub zipcode: Option<String>,
}

impl GGContactInfo {
    /// Whether no field was set, as after a query that requested none.
    pub open spec fn is_blank(&self) -> bool {
        &&& self.city is None
        &&& self.country is None
        &&& self.country_id is None
        &&& self.id is None
        &&& self.name is None
        &&& self.name_first is None
        &&& self.name_last is None
        &&& self.state is None
        &&& self.state_id is None
        &&& self.zipcode is None
    }

    /// Whether `other` holds the same values as `self`, field by field and
    /// through every record and list below it.
    pub open spec fn same(&self, other: &GGContactInfo) -> bool
        decreases self,
    {
        &&& self.city == other.city
        &&& self.country == other.country
        &&& self.country_id == other.country_id
        &&& self.id == other.id
        &&& self.name == other.name
        &&& self.name_first == other.name_first
        &&& self.name_last == other.name_last
        &&& self.state == other.state
        &&& self.state_id == other.state_id
        &&& self.zipcode == other.zipcode
    }

    /// Returns a copy of the record.
    pub fn copy(&self) -> (r: GGContactInfo)
        ensures
            self.same(&r),
            r == *self,
        decreases self,
    {
        GGContactInfo {
            city: self.city.clone(),
            country: self.country.clone(),
            country_id: self.country_id,
            id: self.id,
            name: self.name.clone(),
            name_first: self.name_first.clone(),
            name_last: self.name_last.clone(),
            state: self.state.clone(),
            state_id: self.state_id,
            zipcode: self.zipcode.clone(),
        }
    }

    /// Returns the city in the contact info.
    ///
    /// Returns an empty string if not set or wasn't queried.
    pub fn city(&self) -> (r: String)
        ensures
            r@ == text_or_empty(self.city),
    {
        text_field(&self.city)
    }

    /// Returns the country in the contact info.
    ///
    /// Returns an empty string if not set or wasn't queried.
    pub fn country(&self) -> (r: String)
        ensures
            r@ == text_or_empty(self.country),
    {
        text_field(&self.country)
    }

    /// Returns the country id in the contact info.
    ///
    /// Returns zero if not set or wasn't queried.
    pub fn country_id(&self) -> (r: i64)
        ensures
            r == int_or_zero(self.country_id),
    {
        int_field(self.country_id)
    }

    /// Returns the id of the contact info.
    ///
    /// Returns zero if not set or wasn't queried.
    pub fn id(&self) -> (r: i64)
        ensures
            r == int_or_zero(self.id),
    {
        int_field(self.id)
    }

    /// Returns the name in the contact info.
    ///
    /// Returns an empty string if not set or wasn't queried.
    pub fn name(&self) -> (r: String)
        ensures
            r@ == text_or_empty(self.name),
    {
        text_field(&self.name)
    }

    /// Returns the first name in the contact info.
    ///
    /// Returns an empty string if not set or wasn't queried.
    pub fn name_first(&self) -> (r: String)
        ensures
            r@ == text_or_empty(self.name_first),
    {
        text_field(&self.name_first)
    }

    /// Returns the last name in the contact info.
    ///
    /// Returns an empty string if not set or wasn't queried.
    pub fn name_last(&self) -> (r: String)
        ensures
            r@ == text_or_empty(self.name_last),
    {
        text_field(&self.name_last)
    }

    /// Returns the state in the contact info.
    ///
    /// Returns an empty string if not set or wasn't queried.
    pub fn state(&self) -> (r: String)
        ensures
            r@ == text_or_empty(self.state),
    {
        text_field(&self.state)
    }

    /// Returns the state id in the contact info.
    ///
    /// Returns zero if not set or wasn't queried.
    pub fn state_id(&self) -> (r: i64)
        ensures
            r == int_or_zero(self.state_id),
    {
        int_field(self.state_id)
    }

    /// Returns the zipcode in the contact info.
    ///
    /// Returns an empty string if not set or wasn't queried.
    pub fn zipcode(&self) -> (r: String)
        ensures
            r@ == text_or_empty(self.zipcode),
    {
        text_field(&self.zipcode)
    }
}

impl Clone for GGContactInfo {
    fn clone(&self) -> (r: GGContactInfo)
        ensures
            self.same(&r),
            r == *self,
    {
        self.copy()
    }
}

impl Default for GGContactInfo {
    fn default() -> (r: GGContactInfo)
        ensures
            r.is_blank(),
    {
        GGContactInfo {
            city: None,
            country: None,
            country_id: None,
            id: None,
            name: None,
            name_first: None,
            name_last: None,
            state: None,
            state_id: None,
            zipcode: None,
        }
    }
}

} // verus!
