//! start.gg Character.

use vstd::prelude::*;

use crate::field::{text_or_empty, text_field, int_or_zero, int_field};
use crate::structs::image::GGImage;

verus! {

/// Equivalent for start.gg Character.
///
/// Each element in the structure is optional, allowing a user to only query values they want.
/// Given each is an option and not a requirement, a method is included for each element with the same name.
/// These methods will unwrap and return the proper value without any unwrapping or references needed.
#[derive(Debug)]
pub struct GGCharacter {
    pub id: Option<i64>,
    pub images: Option<Vec<GGImage>>,
    pub name: Option<String>,
}

impl GGCharacter {
    /// Whether no field was set, as after a query that requested none.
    pub open spec fn is_blank(&self) -> bool {
        &&& self.id is None
        &&& self.images is None
        &&& self.name is None
    }

    /// Whether `other` holds the same values as `self`, field by field and
    /// through every record and list below it.
    pub open spec fn same(&self, other: &GGCharacter) -> bool
        decreases self,
    {
        &&& self.id == other.id
        &&& match (self.images, other.images) {
            (Some(a), Some(b)) => a@.len() == b@.len() && forall|i: int|
                0 <= i < a@.len() ==> (#[trigger] a@[i]).same(&b@[i]),
            (None, None) => true,
            _ => false,
        }
        &&& self.name == other.name
    }

    /// Returns a copy of the record.
    pub fn copy(&self) -> (r: GGCharacter)
        ensures
            self.same(&r),
        decreases self,
    {
        GGCharacter {
            id: self.id,
            images: match &self.images {
                Some(v) => Some(GGImage::copy_all(v)),
                None => None,
            },
            name: self.name.clone(),
        }
    }

    /// Returns a copy of each record of a list, in order.
    pub fn copy_all(v: &Vec<GGCharacter>) -> (r: Vec<GGCharacter>)
        ensures
            r@.len() == v@.len(),
            forall|i: int| 0 <= i < v@.len() ==> v@[i].same(&(#[trigger] r@[i])),
        decreases v,
    {
        let mut r: Vec<GGCharacter> = Vec::new();
        let mut i: usize = 0;
        while i < v.len()
            invariant
                i <= v@.len(),
                r@.len() == i,
                forall|k: int| 0 <= k < i ==> v@[k].same(&(#[trigger] r@[k])),
            decreases v@.len() - i,
        {
            proof {
                assert(decreases_to!(v => v[i as int]));
            }
            r.push(v[i].copy());
            i = i + 1;
        }
        r
    }

    /// Returns the id of the character.
    ///
    /// Returns zero if not set or wasn't queried.
    pub fn id(&self) -> (r: i64)
        ensures
            r == int_or_zero(self.id),
    {
        int_field(self.id)
    }

    /// Returns the images for the character.
    ///
    /// Returns an empty vector if not set or wasn't queried.
    pub fn images(&self) -> (r: Vec<GGImage>)
        ensures
            match self.images {
                Some(v) => {
                    &&& r@.len() == v@.len()
                    &&& forall|i: int| 0 <= i < v@.len() ==> v@[i].same(&(#[trigger] r@[i]))
                },
                None => r@.len() == 0,
            },
    {
        match &self.images {
            Some(v) => GGImage::copy_all(v),
            None => Vec::new(),
        }
    }

    /// Returns the name of the character.
    ///
    /// Returns an empty string if not set or wasn't queried.
    pub fn name(&self) -> (r: String)
        ensures
            r@ == text_or_empty(self.name),
    {
        text_field(&self.name)
    }
}

impl Clone for GGCharacter {
    fn clone(&self) -> (r: GGCharacter)
        ensures
            self.same(&r),
    {
        self.copy()
    }
}

impl Default for GGCharacter {
    fn default() -> (r: GGCharacter)
        ensures
            r.is_blank(),
    {
        GGCharacter {
            id: None,
            images: None,
            name: None,
        }
    }
}

} // verus!
