//! start.gg SeedConnection, start.gg Seed.

use vstd::prelude::*;

use crate::field::{text_or_empty, text_field, int_or_zero, int_field, flag_or_false, flag_field};
use crate::structs::entrant::GGEntrant;
use crate::structs::page_info::GGPageInfo;
use crate::structs::phase::GGPhase;
use crate::structs::phase_group::GGPhaseGroup;
use crate::structs::player::GGPlayer;
use crate::structs::progression::GGProgression;

verus! {

/// Equivalent for start.gg SeedConnection.
#[derive(Debug)]
pub struct GGSeedConnection {
    pub nodes: Vec<GGSeed>,
    pub page_info: Option<Box<GGPageInfo>>,
}

impl GGSeedConnection {
    /// Whether no field was set, as after a query that requested none.
    pub open spec fn is_blank(&self) -> bool {
        &&& self.nodes@.len() == 0
        &&& self.page_info is None
    }

    /// Whether `other` holds the same values as `self`, field by field and
    /// through every record and list below it.
    pub open spec fn same(&self, other: &GGSeedConnection) -> bool
        decreases self,
    {
        &&& self.nodes@.len() == other.nodes@.len()
        &&& forall|i: int| 0 <= i < self.nodes@.len() ==> (#[trigger] self.nodes@[i]).same(&other.nodes@[i])
        &&& match (self.page_info, other.page_info) {
            (Some(a), Some(b)) => a.same(&b),
            (None, None) => true,
            _ => false,
        }
    }

    /// Returns a copy of the record.
    pub fn copy(&self) -> (r: GGSeedConnection)
        ensures
            self.same(&r),
        decreases self,
    {
        GGSeedConnection {
            nodes: GGSeed::copy_all(&self.nodes),
            page_info: match &self.page_info {
                Some(b) => Some(Box::new(b.copy())),
                None => None,
            },
        }
    }

    /// Returns the page info of the connection.
    ///
    /// Returns empty page info if not set or wasn't queried.
    pub fn page_info(&self) -> (r: GGPageInfo)
        ensures
            match self.page_info {
                Some(c) => c.same(&r),
                None => r.is_blank(),
            },
    {
        match &self.page_info {
            Some(c) => c.copy(),
            None => GGPageInfo::default(),
        }
    }
}

impl Clone for GGSeedConnection {
    fn clone(&self) -> (r: GGSeedConnection)
        ensures
            self.same(&r),
    {
        self.copy()
    }
}

impl Default for GGSeedConnection {
    fn default() -> (r: GGSeedConnection)
        ensures
            r.is_blank(),
    {
        GGSeedConnection {
            nodes: Vec::new(),
            page_info: None,
        }
    }
}

/// Equivalent for start.gg Seed.
///
/// Each element in the structure is optional, allowing a user to only query values they want.
/// Given each is an option and not a requirement, a method is included for each element with the same name.
/// These methods will unwrap and return the proper value without any unwrapping or references needed.
#[derive(Debug)]
pub struct GGSeed {
    pub entrant: Option<Box<GGEntrant>>,
    pub group_seed_num: Option<i64>,
    pub id: Option<i64>,
    pub is_bye: Option<bool>,
    pub phase: Option<Box<GGPhase>>,
    pub phase_group: Option<Box<GGPhaseGroup>>,
    pub placeholder_name: Option<String>,
    pub placement: Option<i64>,
    pub players: Option<Vec<GGPlayer>>,
    pub progression_seed_id: Option<i64>,
    pub progression_source: Option<Box<GGProgression>>,
    pub seed_num: Option<i64>,
}

impl GGSeed {
    /// Whether no field was set, as after a query that requested none.
    pub open spec fn is_blank(&self) -> bool {
        &&& self.entrant is None
        &&& self.group_seed_num is None
        &&& self.id is None
        &&& self.is_bye is None
        &&& self.phase is None
        &&& self.phase_group is None
        &&& self.placeholder_name is None
        &&& self.placement is None
        &&& self.players is None
        &&& self.progression_seed_id is None
        &&& self.progression_source is None
        &&& self.seed_num is None
    }

    /// Whether `other` holds the same values as `self`, field by field and
    /// through every record and list below it.
    pub open spec fn same(&self, other: &GGSeed) -> bool
        decreases self,
    {
        &&& match (self.entrant, other.entrant) {
            (Some(a), Some(b)) => a.same(&b),
            (None, None) => true,
            _ => false,
        }
        &&& self.group_seed_num == other.group_seed_num
        &&& self.id == other.id
        &&& self.is_bye == other.is_bye
        &&& match (self.phase, other.phase) {
            (Some(a), Some(b)) => a.same(&b),
            (None, None) => true,
            _ => false,
        }
        &&& match (self.phase_group, other.phase_group) {
            (Some(a), Some(b)) => a.same(&b),
            (None, None) => true,
            _ => false,
        }
        &&& self.placeholder_name == other.placeholder_name
        &&& self.placement == other.placement
        &&& match (self.players, other.players) {
            (Some(a), Some(b)) => a@.len() == b@.len() && forall|i: int|
                0 <= i < a@.len() ==> (#[trigger] a@[i]).same(&b@[i]),
            (None, None) => true,
            _ => false,
        }
        &&& self.progression_seed_id == other.progression_seed_id
        &&& match (self.progression_source, other.progression_source) {
            (Some(a), Some(b)) => a.same(&b),
            (None, None) => true,
            _ => false,
        }
        &&& self.seed_num == other.seed_num
    }

    /// Returns a copy of the record.
    pub fn copy(&self) -> (r: GGSeed)
        ensures
            self.same(&r),
        decreases self,
    {
        GGSeed {
            entrant: match &self.entrant {
                Some(b) => Some(Box::new(b.copy())),
                None => None,
            },
            group_seed_num: self.group_seed_num,
            id: self.id,
            is_bye: self.is_bye,
            phase: match &self.phase {
                Some(b) => Some(Box::new(b.copy())),
                None => None,
            },
            phase_group: match &self.phase_group {
                Some(b) => Some(Box::new(b.copy())),
                None => None,
            },
            placeholder_name: self.placeholder_name.clone(),
            placement: self.placement,
            players: match &self.players {
                Some(v) => Some(GGPlayer::copy_all(v)),
                None => None,
            },
            progression_seed_id: self.progression_seed_id,
            progression_source: match &self.progression_source {
                Some(b) => Some(Box::new(b.copy())),
                None => None,
            },
            seed_num: self.seed_num,
        }
    }

    /// Returns a copy of each record of a list, in order.
    pub fn copy_all(v: &Vec<GGSeed>) -> (r: Vec<GGSeed>)
        ensures
            r@.len() == v@.len(),
            forall|i: int| 0 <= i < v@.len() ==> v@[i].same(&(#[trigger] r@[i])),
        decreases v,
    {
        let mut r: Vec<GGSeed> = Vec::new();
        let mut i: usize = 0;
        while i < v.len()
            invariant
                i <= v@.len(),
                r@.len() == i,
                forall|k: int| 0 <= k < i ==> v@[k].same(&(#[trigger] r@[k])),
            decreases v@.len() - i,
        {
            proof {
                assert(decreases_to!(v => v[i as int]));
            }
            r.push(v[i].copy());
            i = i + 1;
        }
        r
    }

    /// Returns the entrant of the seed.
    ///
    /// Returns an empty entrant if not set or wasn't queried.
    pub fn entrant(&self) -> (r: GGEntrant)
        ensures
            match self.entrant {
                Some(c) => c.same(&r),
                None => r.is_blank(),
            },
    {
        match &self.entrant {
            Some(c) => c.copy(),
            None => GGEntrant::default(),
        }
    }

    /// Returns the group seed number of the seed.
    ///
    /// Returns zero if not set or wasn't queried.
    pub fn group_seed_num(&self) -> (r: i64)
        ensures
            r == int_or_zero(self.group_seed_num),
    {
        int_field(self.group_seed_num)
    }

    /// Returns the id of the seed.
    ///
    /// Returns zero if not set or wasn't queried.
    pub fn id(&self) -> (r: i64)
        ensures
            r == int_or_zero(self.id),
    {
        int_field(self.id)
    }

    /// Returns if the seed is a bye.
    ///
    /// Returns false if not set or wasn't queried.
    pub fn is_bye(&self) -> (r: bool)
        ensures
            r == flag_or_false(self.is_bye),
    {
        flag_field(self.is_bye)
    }

    /// Returns the phase of the seed.
    ///
    /// Returns an empty phase if not set or wasn't queried.
    pub fn phase(&self) -> (r: GGPhase)
        ensures
            match self.phase {
                Some(c) => c.same(&r),
                None => r.is_blank(),
            },
    {
        match &self.phase {
            Some(c) => c.copy(),
            None => GGPhase::default(),
        }
    }

    /// Returns the phase group of the seed.
    ///
    /// Returns an empty phase group if not set or wasn't queried.
    pub fn phase_group(&self) -> (r: GGPhaseGroup)
        ensures
            match self.phase_group {
                Some(c) => c.same(&r),
                None => r.is_blank(),
            },
    {
        match &self.phase_group {
            Some(c) => c.copy(),
            None => GGPhaseGroup::default(),
        }
    }

    /// Returns the placeholder name of the seed.
    ///
    /// Returns an empty string if not set or wasn't queried.
    pub fn placeholder_name(&self) -> (r: String)
        ensures
            r@ == text_or_empty(self.placeholder_name),
    {
        text_field(&self.placeholder_name)
    }

    /// Returns the placement of the seed.
    ///
    /// Returns zero if not set or wasn't queried.
    pub fn placement(&self) -> (r: i64)
        ensures
            r == int_or_zero(self.placement),
    {
        int_field(self.placement)
    }

    /// Returns the players in the event.
    ///
    /// Returns an empty vector if not set or wasn't queried.
    pub fn players(&self) -> (r: Vec<GGPlayer>)
        ensures
            match self.players {
                Some(v) => {
                    &&& r@.len() == v@.len()
                    &&& forall|i: int| 0 <= i < v@.len() ==> v@[i].same(&(#[trigger] r@[i]))
                },
                None => r@.len() == 0,
            },
    {
        match &self.players {
            Some(v) => GGPlayer::copy_all(v),
            None => Vec::new(),
        }
    }

    /// Returns the progression source of the seed.
    ///
    /// Returns an empty progression if not set or wasn't queried.
    pub fn progression_source(&self) -> (r: GGProgression)
        ensures
            match self.progression_source {
                Some(c) => c.same(&r),
                None => r.is_blank(),
            },
    {
        match &self.progression_source {
            Some(c) => c.copy(),
            None => GGProgression::default(),
        }
    }

    /// Returns the seed number of the seed.
    ///
    /// Returns zero if not set or wasn't queried.
    pub fn seed_num(&self) -> (r: i64)
        ensures
            r == int_or_zero(self.seed_num),
    {
        int_field(self.seed_num)
    }
}

impl Clone for GGSeed {
    fn clone(&self) -> (r: GGSeed)
        ensures
            self.same(&r),
    {
        self.copy()
    }
}

impl Default for GGSeed {
    fn default() -> (r: GGSeed)
        ensures
            r.is_blank(),
    {
        GGSeed {
            entrant: None,
            group_seed_num: None,
            id: None,
            is_bye: None,
            phase: None,
            phase_group: None,
            placeholder_name: None,
            placement: None,
            players: None,
            progression_seed_id: None,
            progression_source: None,
            seed_num: None,
        }
    }
}

} // verus!
