//! start.gg ShopOrderMessageConnection, start.gg ShopOrderMessage.

use vstd::prelude::*;

use crate::field::{text_or_empty, text_field, int_or_zero, int_field};
use crate::structs::page_info::GGPageInfo;
use crate::structs::player::GGPlayer;

verus! {

/// Equivalent for start.gg ShopOrderMessageConnection.
#[derive(Debug)]
pub struct GGShopOrderMessageConnection {
    pub nodes: Vec<GGShopOrderMessage>,
    pub page_info: Option<Box<GGPageInfo>>,
}

impl GGShopOrderMessageConnection {
    /// Whether no field was set, as after a query that requested none.
    pub open spec fn is_blank(&self) -> bool {
        &&& self.nodes@.len() == 0
        &&& self.page_info is None
    }

    /// Whether `other` holds the same values as `self`, field by field and
    /// through every record and list below it.
    pub open spec fn same(&self, other: &GGShopOrderMessageConnection) -> bool
        decreases self,
    {
        &&& self.nodes@.len() == other.nodes@.len()
        &&& forall|i: int| 0 <= i < self.nodes@.len() ==> (#[trigger] self.nodes@[i]).same(&other.nodes@[i])
        &&& match (self.page_info, other.page_info) {
            (Some(a), Some(b)) => a.same(&b),
            (None, None) => true,
            _ => false,
        }
    }

    /// Returns a copy of the record.
    pub fn copy(&self) -> (r: GGShopOrderMessageConnection)
        ensures
            self.same(&r),
        decreases self,
    {
        GGShopOrderMessageConnection {
            nodes: GGShopOrderMessage::copy_all(&self.nodes),
            page_info: match &self.page_info {
                Some(b) => Some(Box::new(b.copy())),
                None => None,
            },
        }
    }

    /// Returns the page info of the connection.
    ///
    /// Returns empty page info if not set or wasn't queried.
    pub fn page_info(&self) -> (r: GGPageInfo)
        ensures
            match self.page_info {
                Some(c) => c.same(&r),
                None => r.is_blank(),
            },
    {
        match &self.page_info {
            Some(c) => c.copy(),
            None => GGPageInfo::default(),
        }
    }
}

impl Clone for GGShopOrderMessageConnection {
    fn clone(&self) -> (r: GGShopOrderMessageConnection)
        ensures
            self.same(&r),
    {
        self.copy()
    }
}

impl Default for GGShopOrderMessageConnection {
    fn default() -> (r: GGShopOrderMessageConnection)
        ensures
            r.is_blank(),
    {
        GGShopOrderMessageConnection {
            nodes: Vec::new(),
            page_info: None,
        }
    }
}

/// Equivalent for start.gg ShopOrderMessage.
///
/// Each element in the structure is optional, allowing a user to only query values they want.
/// Given each is an option and not a requirement, a method is included for each element with the same name.
/// These methods will unwrap and return the proper value without any unwrapping or references needed.
#[derive(Debug)]
pub struct GGShopOrderMessage {
    pub gamertag: Option<String>,
    pub id: Option<i64>,
    pub message: Option<String>,
    pub name: Option<String>,
    pub player: Option<Box<GGPlayer>>,
}

impl GGShopOrderMessage {
    /// Whether no field was set, as after a query that requested none.
    pub open spec fn is_blank(&self) -> bool {
        &&& self.gamertag is None
        &&& self.id is None
        &&& self.message is None
        &&& self.name is None
        &&& self.player is None
    }

    /// Whether `other` holds the same values as `self`, field by field and
    /// through every record and list below it.
    pub open spec fn same(&self, other: &GGShopOrderMessage) -> bool
        decreases self,
    {
        &&& self.gamertag == other.gamertag
        &&& self.id == other.id
        &&& self.message == other.message
        &&& self.name == other.name
        &&& match (self.player, other.player) {
            (Some(a), Some(b)) => a.same(&b),
            (None, None) => true,
            _ => false,
        }
    }

    /// Returns a copy of the record.
    pub fn copy(&self) -> (r: GGShopOrderMessage)
        ensures
            self.same(&r),
        decreases self,
    {
        GGShopOrderMessage {
            gamertag: self.gamertag.clone(),
            id: self.id,
            message: self.message.clone(),
            name: self.name.clone(),
            player: match &self.player {
                Some(b) => Some(Box::new(b.copy())),
                None => None,
            },
        }
    }

    /// Returns a copy of each record of a list, in order.
    pub fn copy_all(v: &Vec<GGShopOrderMessage>) -> (r: Vec<GGShopOrderMessage>)
        ensures
            r@.len() == v@.len(),
            forall|i: int| 0 <= i < v@.len() ==> v@[i].same(&(#[trigger] r@[i])),
        decreases v,
    {
        let mut r: Vec<GGShopOrderMessage> = Vec::new();
        let mut i: usize = 0;
        while i < v.len()
            invariant
                i <= v@.len(),
                r@.len() == i,
                forall|k: int| 0 <= k < i ==> v@[k].same(&(#[trigger] r@[k])),
            decreases v@.len() - i,
        {
            proof {
                assert(decreases_to!(v => v[i as int]));
            }
            r.push(v[i].copy());
            i = i + 1;
        }
        r
    }

    /// Returns the gamertag of the shop order message.
    ///
    /// Returns an empty string if not set or wasn't queried.
    pub fn gamertag(&self) -> (r: String)
        ensures
            r@ == text_or_empty(self.gamertag),
    {
        text_field(&self.gamertag)
    }

    /// Returns the id of the shop order message.
    ///
    /// Returns zero if not set or wasn't queried.
    pub fn id(&self) -> (r: i64)
        ensures
            r == int_or_zero(self.id),
    {
        int_field(self.id)
    }

    /// Returns the message of the shop order message.
    ///
    /// Returns an empty string if not set or wasn't queried.
    pub fn message(&self) -> (r: String)
        ensures
            r@ == text_or_empty(self.message),
    {
        text_field(&self.message)
    }

    /// Returns the name of the shop order message.
    ///
    /// Returns an empty string if not set or wasn't queried.
    pub fn name(&self) -> (r: String)
        ensures
            r@ == text_or_empty(self.name),
    {
        text_field(&self.name)
    }

    /// Returns the player of the shop order message.
    ///
    /// Returns an empty player if not set or wasn't queried.
    pub fn player(&self) -> (r: GGPlayer)
        ensures
            match self.player {
                Some(c) => c.same(&r),
                None => r.is_blank(),
            },
    {
        match &self.player {
            Some(c) => c.copy(),
            None => GGPlayer::default(),
        }
    }
}

impl Clone for GGShopOrderMessage {
    fn clone(&self) -> (r: GGShopOrderMessage)
        ensures
            self.same(&r),
    {
        self.copy()
    }
}

impl Default for GGShopOrderMessage {
    fn default() -> (r: GGShopOrderMessage)
        ensures
            r.is_blank(),
    {
        GGShopOrderMessage {
            gamertag: None,
            id: None,
            message: None,
            name: None,
            player: None,
        }
    }
}

} // verus!
