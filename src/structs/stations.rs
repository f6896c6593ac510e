//! start.gg StationsConnection, start.gg Stations.

use vstd::prelude::*;

use crate::field::{text_or_empty, text_field, int_or_zero, int_field, flag_or_false, flag_field};
use crate::structs::page_info::GGPageInfo;
use crate::timestamp::GGTimestamp;

verus! {

/// Equivalent for start.gg StationsConnection.
#[derive(Debug)]
pub struct GGStationsConnection {
    pub nodes: Vec<GGStations>,
    pub page_info: Option<Box<GGPageInfo>>,
}

impl GGStationsConnection {
    /// Whether no field was set, as after a query that requested none.
    pub open spec fn is_blank(&self) -> bool {
        &&& self.nodes@.len() == 0
        &&& self.page_info is None
    }

    /// Whether `other` holds the same values as `self`, field by field and
    /// through every record and list below it.
    pub open spec fn same(&self, other: &GGStationsConnection) -> bool
        decreases self,
    {
        &&& self.nodes@.len() == other.nodes@.len()
        &&& forall|i: int| 0 <= i < self.nodes@.len() ==> (#[trigger] self.nodes@[i]).same(&other.nodes@[i])
        &&& match (self.page_info, other.page_info) {
            (Some(a), Some(b)) => a.same(&b),
            (None, None) => true,
            _ => false,
        }
    }

    /// Returns a copy of the record.
    pub fn copy(&self) -> (r: GGStationsConnection)
        ensures
            self.same(&r),
        decreases self,
    {
        GGStationsConnection {
            nodes: GGStations::copy_all(&self.nodes),
            page_info: match &self.page_info {
                Some(b) => Some(Box::new(b.copy())),
                None => None,
            },
        }
    }

    /// Returns the page info of the connection.
    ///
    /// Returns empty page info if not set or wasn't queried.
    pub fn page_info(&self) -> (r: GGPageInfo)
        ensures
            match self.page_info {
                Some(c) => c.same(&r),
                None => r.is_blank(),
            },
    {
        match &self.page_info {
            Some(c) => c.copy(),
            None => GGPageInfo::default(),
        }
    }
}

impl Clone for GGStationsConnection {
    fn clone(&self) -> (r: GGStationsConnection)
        ensures
            self.same(&r),
    {
        self.copy()
    }
}

impl Default for GGStationsConnection {
    fn default() -> (r: GGStationsConnection)
        ensures
            r.is_blank(),
    {
        GGStationsConnection {
            nodes: Vec::new(),
            page_info: None,
        }
    }
}

/// Equivalent for start.gg Stations.
///
/// Each element in the structure is optional, allowing a user to only query values they want.
/// Given each is an option and not a requirement, a method is included for each element with the same name.
/// These methods will unwrap and return the proper value without any unwrapping or references needed.
#[derive(Debug)]
pub struct GGStations {
    pub can_auto_assign: Option<bool>,
    pub cluster_number: Option<String>,
    pub cluster_prefix: Option<i64>,
    pub enabled: Option<bool>,
    pub identifier: Option<i64>,
    pub id: Option<i64>,
    pub num_setups: Option<i64>,
    pub number: Option<i64>,
    pub prefix: Option<String>,
    pub queue_depth: Option<i64>,
    pub state: Option<i64>,
    pub updated_at: Option<i64>,
}

impl GGStations {
    /// Whether no field was set, as after a query that requested none.
    pub open spec fn is_blank(&self) -> bool {
        &&& self.can_auto_assign is None
        &&& self.cluster_number is None
        &&& self.cluster_prefix is None
        &&& self.enabled is None
        &&& self.identifier is None
        &&& self.id is None
        &&& self.num_setups is None
        &&& self.number is None
        &&& self.prefix is None
        &&& self.queue_depth is None
        &&& self.state is None
        &&& self.updated_at is None
    }

    /// Whether `other` holds the same values as `self`, field by field and
    /// through every record and list below it.
    pub open spec fn same(&self, other: &GGStations) -> bool
        decreases self,
    {
        &&& self.can_auto_assign == other.can_auto_assign
        &&& self.cluster_number == other.cluster_number
        &&& self.cluster_prefix == other.cluster_prefix
        &&& self.enabled == other.enabled
        &&& self.identifier == other.identifier
        &&& self.id == other.id
        &&& self.num_setups == other.num_setups
        &&& self.number == other.number
        &&& self.prefix == other.prefix
        &&& self.queue_depth == other.queue_depth
        &&& self.state == other.state
        &&& self.updated_at == other.updated_at
    }

    /// Returns a copy of the record.
    pub fn copy(&self) -> (r: GGStations)
        ensures
            self.same(&r),
            r == *self,
        decreases self,
    {
        GGStations {
            can_auto_assign: self.can_auto_assign,
            cluster_number: self.cluster_number.clone(),
            cluster_prefix: self.cluster_prefix,
            enabled: self.enabled,
            identifier: self.identifier,
            id: self.id,
            num_setups: self.num_setups,
            number: self.number,
            prefix: self.prefix.clone(),
            queue_depth: self.queue_depth,
            state: self.state,
            updated_at: self.updated_at,
        }
    }

    /// Returns a copy of each record of a list, in order.
    pub fn copy_all(v: &Vec<GGStations>) -> (r: Vec<GGStations>)
        ensures
            r@.len() == v@.len(),
            forall|i: int| 0 <= i < v@.len() ==> v@[i].same(&(#[trigger] r@[i])),
        decreases v,
    {
        let mut r: Vec<GGStations> = Vec::new();
        let mut i: usize = 0;
        while i < v.len()
            invariant
                i <= v@.len(),
                r@.len() == i,
                forall|k: int| 0 <= k < i ==> v@[k].same(&(#[trigger] r@[k])),
            decreases v@.len() - i,
        {
            proof {
                assert(decreases_to!(v => v[i as int]));
            }
            r.push(v[i].copy());
            i = i + 1;
        }
        r
    }

    /// Returns if the station can be auto assigned.
    ///
    /// Returns false if not set or wasn't queried.
    pub fn can_auto_assign(&self) -> (r: bool)
        ensures
            r == flag_or_false(self.can_auto_assign),
    {
        flag_field(self.can_auto_assign)
    }

    /// Returns the cluster number of the station.
    ///
    /// Returns an empty string if not set or wasn't queried.
    pub fn cluster_number(&self) -> (r: String)
        ensures
            r@ == text_or_empty(self.cluster_number),
    {
        text_field(&self.cluster_number)
    }

    /// Returns the cluster prefix of the station.
    ///
    /// Returns zero if not set or wasn't queried.
    pub fn cluster_prefix(&self) -> (r: i64)
        ensures
            r == int_or_zero(self.cluster_prefix),
    {
        int_field(self.cluster_prefix)
    }

    /// Returns if the station is enabled.
    ///
    /// Returns false if not set or wasn't queried.
    pub fn enabled(&self) -> (r: bool)
        ensures
            r == flag_or_false(self.enabled),
    {
        flag_field(self.enabled)
    }

    /// Returns the identifier of the station.
    ///
    /// Returns zero if not set or wasn't queried.
    pub fn identifier(&self) -> (r: i64)
        ensures
            r == int_or_zero(self.identifier),
    {
        int_field(self.identifier)
    }

    /// Returns the id of the station.
    ///
    /// Returns zero if not set or wasn't queried.
    pub fn id(&self) -> (r: i64)
        ensures
            r == int_or_zero(self.id),
    {
        int_field(self.id)
    }

    /// Returns the number of setups in the station.
    ///
    /// Returns zero if not set or wasn't queried.
    pub fn num_setups(&self) -> (r: i64)
        ensures
            r == int_or_zero(self.num_setups),
    {
        int_field(self.num_setups)
    }

    /// Returns the number of the station.
    ///
    /// Returns zero if not set or wasn't queried.
    pub fn number(&self) -> (r: i64)
        ensures
            r == int_or_zero(self.number),
    {
        int_field(self.number)
    }

    /// Returns the prefix of the station.
    ///
    /// Returns an empty string if not set or wasn't queried.
    pub fn prefix(&self) -> (r: String)
        ensures
            r@ == text_or_empty(self.prefix),
    {
        text_field(&self.prefix)
    }

    /// Returns the queue depth of the station.
    ///
    /// Returns zero if not set or wasn't queried.
    pub fn queue_depth(&self) -> (r: i64)
        ensures
            r == int_or_zero(self.queue_depth),
    {
        int_field(self.queue_depth)
    }

    /// Returns the state of the station.
    ///
    /// Returns zero if not set or wasn't queried.
    pub fn state(&self) -> (r: i64)
        ensures
            r == int_or_zero(self.state),
    {
        int_field(self.state)
    }

    /// Returns the time the station was last updated.
    ///
    /// Returns zero if not set or wasn't queried.
    pub fn updated_at(&self) -> (r: GGTimestamp)
        ensures
            r.seconds == int_or_zero(self.updated_at),
    {
        GGTimestamp { seconds: int_field(self.updated_at) }
    }
}

impl Clone for GGStations {
    fn clone(&self) -> (r: GGStations)
        ensures
            self.same(&r),
            r == *self,
    {
        self.copy()
    }
}

impl Default for GGStations {
    fn default() -> (r: GGStations)
        ensures
            r.is_blank(),
    {
        GGStations {
            can_auto_assign: None,
            cluster_number: None,
            cluster_prefix: None,
            enabled: None,
            identifier: None,
            id: None,
            num_setups: None,
            number: None,
            prefix: None,
            queue_depth: None,
            state: None,
            updated_at: None,
        }
    }
}

} // verus!
