//! start.gg Shop.

use vstd::prelude::*;

use crate::field::{text_or_empty, text_field, int_or_zero, int_field};
use crate::structs::shop_level::GGShopLevel;
use crate::structs::shop_level::GGShopLevelConnection;
use crate::structs::shop_order_message::GGShopOrderMessage;
use crate::structs::shop_order_message::GGShopOrderMessageConnection;

verus! {

/// Equivalent for start.gg Shop.
///
/// Each element in the structure is optional, allowing a user to only query values they want.
/// Given each is an option and not a requirement, a method is included for each element with the same name.
/// These methods will unwrap and return the proper value without any unwrapping or references needed.
/// Certain methods (see levels()) will return a vector of the data type instead of a connection to a vector, done to simplify the API and make the start.gg api easier to work with.
#[derive(Debug)]
pub struct GGShop {
    pub id: Option<i64>,
    pub levels: Option<Box<GGShopLevelConnection>>,
    pub messages: Option<Box<GGShopOrderMessageConnection>>,
    pub name: Option<String>,
    pub slug: Option<String>,
    pub url: Option<String>,
}

impl GGShop {
    /// Whether no field was set, as after a query that requested none.
    pub open spec fn is_blank(&self) -> bool {
        &&& self.id is None
        &&& self.levels is None
        &&& self.messages is None
        &&& self.name is None
        &&& self.slug is None
        &&& self.url is None
    }

    /// Whether `other` holds the same values as `self`, field by field and
    /// through every record and list below it.
    pub open spec fn same(&self, other: &GGShop) -> bool
        decreases self,
    {
        &&& self.id == other.id
        &&& match (self.levels, other.levels) {
            (Some(a), Some(b)) => a.same(&b),
            (None, None) => true,
            _ => false,
        }
        &&& match (self.messages, other.messages) {
            (Some(a), Some(b)) => a.same(&b),
            (None, None) => true,
            _ => false,
        }
        &&& self.name == other.name
        &&& self.slug == other.slug
        &&& self.url == other.url
    }

    /// Returns a copy of the record.
    pub fn copy(&self) -> (r: GGShop)
        ensures
            self.same(&r),
        decreases self,
    {
        GGShop {
            id: self.id,
            levels: match &self.levels {
                Some(b) => Some(Box::new(b.copy())),
                None => None,
            },
            messages: match &self.messages {
                Some(b) => Some(Box::new(b.copy())),
                None => None,
            },
            name: self.name.clone(),
            slug: self.slug.clone(),
            url: self.url.clone(),
        }
    }

    /// Returns the id of the shop.
    ///
    /// Returns zero if not set or wasn't queried.
    pub fn id(&self) -> (r: i64)
        ensures
            r == int_or_zero(self.id),
    {
        int_field(self.id)
    }

    /// Returns the levels in the shop.
    ///
    /// Returns an empty vector if not set or wasn't queried.
    pub fn levels(&self) -> (r: Vec<GGShopLevel>)
        ensures
            match self.levels {
                Some(c) => {
                    &&& r@.len() == c.nodes@.len()
                    &&& forall|i: int| 0 <= i < c.nodes@.len() ==> c.nodes@[i].same(&(#[trigger] r@[i]))
                },
                None => r@.len() == 0,
            },
    {
        match &self.levels {
            Some(c) => GGShopLevel::copy_all(&c.nodes),
            None => Vec::new(),
        }
    }

    /// Returns the messages in the shop.
    ///
    /// Returns an empty vector if not set or wasn't queried.
    pub fn messages(&self) -> (r: Vec<GGShopOrderMessage>)
        ensures
            match self.messages {
                Some(c) => {
                    &&& r@.len() == c.nodes@.len()
                    &&& forall|i: int| 0 <= i < c.nodes@.len() ==> c.nodes@[i].same(&(#[trigger] r@[i]))
                },
                None => r@.len() == 0,
            },
    {
        match &self.messages {
            Some(c) => GGShopOrderMessage::copy_all(&c.nodes),
            None => Vec::new(),
        }
    }

    /// Returns the name of the shop.
    ///
    /// Returns an empty string if not set or wasn't queried.
    pub fn name(&self) -> (r: String)
        ensures
            r@ == text_or_empty(self.name),
    {
        text_field(&self.name)
    }

    /// Returns the slug of the shop.
    ///
    /// Returns an empty string if not set or wasn't queried.
    pub fn slug(&self) -> (r: String)
        ensures
            r@ == text_or_empty(self.slug),
    {
        text_field(&self.slug)
    }

    /// Returns the url of the shop.
    ///
    /// Returns an empty string if not set or wasn't queried.
    pub fn url(&self) -> (r: String)
        ensures
            r@ == text_or_empty(self.url),
    {
        text_field(&self.url)
    }
}

impl Clone for GGShop {
    fn clone(&self) -> (r: GGShop)
        ensures
            self.same(&r),
    {
        self.copy()
    }
}

impl Default for GGShop {
    fn default() -> (r: GGShop)
        ensures
            r.is_blank(),
    {
        GGShop {
            id: None,
            levels: None,
            messages: None,
            name: None,
            slug: None,
            url: None,
        }
    }
}

} // verus!
