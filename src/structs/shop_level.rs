//! start.gg ShopLevelConnection, start.gg ShopLevel.

use vstd::prelude::*;

use crate::field::{text_or_empty, text_field, int_or_zero, int_field};
use crate::structs::image::GGImage;
use crate::structs::page_info::GGPageInfo;

verus! {

/// Equivalent for start.gg ShopLevelConnection.
#[derive(Debug)]
pub struct GGShopLevelConnection {
    pub nodes: Vec<GGShopLevel>,
    pub page_info: Option<Box<GGPageInfo>>,
}

impl GGShopLevelConnection {
    /// Whether no field was set, as after a query that requested none.
    pub open spec fn is_blank(&self) -> bool {
        &&& self.nodes@.len() == 0
        &&& self.page_info is None
    }

    /// Whether `other` holds the same values as `self`, field by field and
    /// through every record and list below it.
    pub open spec fn same(&self, other: &GGShopLevelConnection) -> bool
        decreases self,
    {
        &&& self.nodes@.len() == other.nodes@.len()
        &&& forall|i: int| 0 <= i < self.nodes@.len() ==> (#[trigger] self.nodes@[i]).same(&other.nodes@[i])
        &&& match (self.page_info, other.page_info) {
            (Some(a), Some(b)) => a.same(&b),
            (None, None) => true,
            _ => false,
        }
    }

    /// Returns a copy of the record.
    pub fn copy(&self) -> (r: GGShopLevelConnection)
        ensures
            self.same(&r),
        decreases self,
    {
        GGShopLevelConnection {
            nodes: GGShopLevel::copy_all(&self.nodes),
            page_info: match &self.page_info {
                Some(b) => Some(Box::new(b.copy())),
                None => None,
            },
        }
    }

    /// Returns the page info of the connection.
    ///
    /// Returns empty page info if not set or wasn't queried.
    pub fn page_info(&self) -> (r: GGPageInfo)
        ensures
            match self.page_info {
                Some(c) => c.same(&r),
                None => r.is_blank(),
            },
    {
        match &self.page_info {
            Some(c) => c.copy(),
            None => GGPageInfo::default(),
        }
    }
}

impl Clone for GGShopLevelConnection {
    fn clone(&self) -> (r: GGShopLevelConnection)
        ensures
            self.same(&r),
    {
        self.copy()
    }
}

impl Default for GGShopLevelConnection {
    fn default() -> (r: GGShopLevelConnection)
        ensures
            r.is_blank(),
    {
        GGShopLevelConnection {
            nodes: Vec::new(),
            page_info: None,
        }
    }
}

/// Equivalent for start.gg ShopLevel.
///
/// Each element in the structure is optional, allowing a user to only query values they want.
/// Given each is an option and not a requirement, a method is included for each element with the same name.
/// These methods will unwrap and return the proper value without any unwrapping or references needed.
/// Certain methods (see images()) will return a vector of the data type instead of a connection to a vector, done to simplify the API and make the start.gg api easier to work with.
#[derive(Debug)]
pub struct GGShopLevel {
    pub description: Option<String>,
    pub id: Option<i64>,
    pub images: Option<Vec<GGImage>>,
    pub name: Option<String>,
}

impl GGShopLevel {
    /// Whether no field was set, as after a query that requested none.
    pub open spec fn is_blank(&self) -> bool {
        &&& self.description is None
        &&& self.id is None
        &&& self.images is None
        &&& self.name is None
    }

    /// Whether `other` holds the same values as `self`, field by field and
    /// through every record and list below it.
    pub open spec fn same(&self, other: &GGShopLevel) -> bool
        decreases self,
    {
        &&& self.description == other.description
        &&& self.id == other.id
        &&& match (self.images, other.images) {
            (Some(a), Some(b)) => a@.len() == b@.len() && forall|i: int|
                0 <= i < a@.len() ==> (#[trigger] a@[i]).same(&b@[i]),
            (None, None) => true,
            _ => false,
        }
        &&& self.name == other.name
    }

    /// Returns a copy of the record.
    pub fn copy(&self) -> (r: GGShopLevel)
        ensures
            self.same(&r),
        decreases self,
    {
        GGShopLevel {
            description: self.description.clone(),
            id: self.id,
            images: match &self.images {
                Some(v) => Some(GGImage::copy_all(v)),
                None => None,
            },
            name: self.name.clone(),
        }
    }

    /// Returns a copy of each record of a list, in order.
    pub fn copy_all(v: &Vec<GGShopLevel>) -> (r: Vec<GGShopLevel>)
        ensures
            r@.len() == v@.len(),
            forall|i: int| 0 <= i < v@.len() ==> v@[i].same(&(#[trigger] r@[i])),
        decreases v,
    {
        let mut r: Vec<GGShopLevel> = Vec::new();
        let mut i: usize = 0;
        while i < v.len()
            invariant
                i <= v@.len(),
                r@.len() == i,
                forall|k: int| 0 <= k < i ==> v@[k].same(&(#[trigger] r@[k])),
            decreases v@.len() - i,
        {
            proof {
                assert(decreases_to!(v => v[i as int]));
            }
            r.push(v[i].copy());
            i = i + 1;
        }
        r
    }

    /// Returns the description of the shop level.
    ///
    /// Returns an empty string if not set or wasn't queried.
    pub fn description(&self) -> (r: String)
        ensures
            r@ == text_or_empty(self.description),
    {
        text_field(&self.description)
    }

    /// Returns the id of the shop level.
    ///
    /// Returns zero if not set or wasn't queried.
    pub fn id(&self) -> (r: i64)
        ensures
            r == int_or_zero(self.id),
    {
        int_field(self.id)
    }

    /// Returns the images of the shop level.
    ///
    /// Returns an empty vector if not set or wasn't queried.
    pub fn images(&self) -> (r: Vec<GGImage>)
        ensures
            match self.images {
                Some(v) => {
                    &&& r@.len() == v@.len()
                    &&& forall|i: int| 0 <= i < v@.len() ==> v@[i].same(&(#[trigger] r@[i]))
                },
                None => r@.len() == 0,
            },
    {
        match &self.images {
            Some(v) => GGImage::copy_all(v),
            None => Vec::new(),
        }
    }

    /// Returns the name of the shop level.
    ///
    /// Returns an empty string if not set or wasn't queried.
    pub fn name(&self) -> (r: String)
        ensures
            r@ == text_or_empty(self.name),
    {
        text_field(&self.name)
    }
}

impl Clone for GGShopLevel {
    fn clone(&self) -> (r: GGShopLevel)
        ensures
            self.same(&r),
    {
        self.copy()
    }
}

impl Default for GGShopLevel {
    fn default() -> (r: GGShopLevel)
        ensures
            r.is_blank(),
    {
        GGShopLevel {
            description: None,
            id: None,
            images: None,
            name: None,
        }
    }
}

} // verus!
