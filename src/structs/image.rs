//! start.gg Image.

use vstd::prelude::*;

use crate::field::{text_or_empty, text_field, int_or_zero, int_field};

verus! {

/// Equivalent for start.gg Image.
///
/// Each element in the structure is optional, allowing a user to only query values they want.
/// Given each is an option and not a requirement, a method is included for each element with the same name.
/// These methods will unwrap and return the proper value without any unwrapping or references needed.
#[derive(Debug)]
pub struct GGImage {
    pub id: Option<i64>,
    pub type_: Option<String>,
    pub url: Option<String>,
}

impl GGImage {
    /// Whether no field was set, as after a query that requested none.
    pub open spec fn is_blank(&self) -> bool {
        &&& self.id is None
        &&& self.type_ is None
        &&& self.url is None
    }

    /// Whether `other` holds the same values as `self`, field by field and
    /// through every record and list below it.
    pub open spec fn same(&self, other: &GGImage) -> bool
        decreases self,
    {
        &&& self.id == other.id
        &&& self.type_ == other.type_
        &&& self.url == other.url
    }

    /// Returns a copy of the record.
    pub fn copy(&self) -> (r: GGImage)
        ensures
            self.same(&r),
            r == *self,
        decreases self,
    {
        GGImage {
            id: self.id,
            type_: self.type_.clone(),
            url: self.url.clone(),
        }
    }

    /// Returns a copy of each record of a list, in order.
    pub fn copy_all(v: &Vec<GGImage>) -> (r: Vec<GGImage>)
        ensures
            r@.len() == v@.len(),
            forall|i: int| 0 <= i < v@.len() ==> v@[i].same(&(#[trigger] r@[i])),
        decreases v,
    {
        let mut r: Vec<GGImage> = Vec::new();
        let mut i: usize = 0;
        while i < v.len()
            invariant
                i <= v@.len(),
                r@.len() == i,
                forall|k: int| 0 <= k < i ==> v@[k].same(&(#[trigger] r@[k])),
            decreases v@.len() - i,
        {
            proof {
                assert(decreases_to!(v => v[i as int]));
            }
            r.push(v[i].copy());
            i = i + 1;
        }
        r
    }

    /// Returns the id of the image.
    ///
    /// Returns zero if not set or wasn't queried.
    pub fn id(&self) -> (r: i64)
        ensures
            r == int_or_zero(self.id),
    {
        int_field(self.id)
    }

    /// Returns the type of the image.
    ///
    /// Returns an empty string if not set or wasn't queried.
    pub fn type_(&self) -> (r: String)
        ensures
            r@ == text_or_empty(self.type_),
    {
        text_field(&self.type_)
    }

    /// Returns the url of the image.
    ///
    /// Returns an empty string if not set or wasn't queried.
    pub fn url(&self) -> (r: String)
        ensures
            r@ == text_or_empty(self.url),
    {
        text_field(&self.url)
    }
}

impl Clone for GGImage {
    fn clone(&self) -> (r: GGImage)
        ensures
            self.same(&r),
            r == *self,
    {
        self.copy()
    }
}

impl Default for GGImage {
    fn default() -> (r: GGImage)
        ensures
            r.is_blank(),
    {
        GGImage {
            id: None,
            type_: None,
            url: None,
        }
    }
}

} // verus!
