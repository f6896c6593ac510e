//! start.gg StandingConnection, start.gg Standing, start.gg StandingContainer.

use vstd::prelude::*;

use crate::field::{int_or_zero, int_field, flag_or_false, flag_field};
use crate::structs::entrant::GGEntrant;
use crate::structs::event::GGEvent;
use crate::structs::page_info::GGPageInfo;
use crate::structs::phase_group::GGPhaseGroup;
use crate::structs::player::GGPlayer;
use crate::structs::standing_stats::GGStandingStats;
use crate::structs::tournament::GGTournament;

verus! {

/// Equivalent for start.gg StandingContainer: the object a standing
/// belongs to, told apart on the wire by its `__typename`.
#[derive(Debug)]
pub enum GGStandingContainer {
    Tournament(GGTournament),
    Event(GGEvent),
    PhaseGroup(GGPhaseGroup),
}

impl GGStandingContainer {
    /// Whether `other` is of the same kind, with the same record.
    pub open spec fn same(&self, other: &GGStandingContainer) -> bool
        decreases self,
    {
        match (self, other) {
            (GGStandingContainer::Tournament(a), GGStandingContainer::Tournament(b)) => a.same(b),
            (GGStandingContainer::Event(a), GGStandingContainer::Event(b)) => a.same(b),
            (GGStandingContainer::PhaseGroup(a), GGStandingContainer::PhaseGroup(b)) => a.same(b),
            _ => false,
        }
    }

    /// Returns a copy of the container.
    pub fn copy(&self) -> (r: GGStandingContainer)
        ensures
            self.same(&r),
        decreases self,
    {
        match self {
            GGStandingContainer::Tournament(t) => GGStandingContainer::Tournament(t.copy()),
            GGStandingContainer::Event(e) => GGStandingContainer::Event(e.copy()),
            GGStandingContainer::PhaseGroup(g) => GGStandingContainer::PhaseGroup(g.copy()),
        }
    }
}

/// Equivalent for start.gg StandingConnection.
#[derive(Debug)]
pub struct GGStandingConnection {
    pub nodes: Vec<GGStanding>,
    pub page_info: Option<Box<GGPageInfo>>,
}

impl GGStandingConnection {
    /// Whether no field was set, as after a query that requested none.
    pub open spec fn is_blank(&self) -> bool {
        &&& self.nodes@.len() == 0
        &&& self.page_info is None
    }

    /// Whether `other` holds the same values as `self`, field by field and
    /// through every record and list below it.
    pub open spec fn same(&self, other: &GGStandingConnection) -> bool
        decreases self,
    {
        &&& self.nodes@.len() == other.nodes@.len()
        &&& forall|i: int| 0 <= i < self.nodes@.len() ==> (#[trigger] self.nodes@[i]).same(&other.nodes@[i])
        &&& match (self.page_info, other.page_info) {
            (Some(a), Some(b)) => a.same(&b),
            (None, None) => true,
            _ => false,
        }
    }

    /// Returns a copy of the record.
    pub fn copy(&self) -> (r: GGStandingConnection)
        ensures
            self.same(&r),
        decreases self,
    {
        GGStandingConnection {
            nodes: GGStanding::copy_all(&self.nodes),
            page_info: match &self.page_info {
                Some(b) => Some(Box::new(b.copy())),
                None => None,
            },
        }
    }

    /// Returns the page info of the connection.
    ///
    /// Returns empty page info if not set or wasn't queried.
    pub fn page_info(&self) -> (r: GGPageInfo)
        ensures
            match self.page_info {
                Some(c) => c.same(&r),
                None => r.is_blank(),
            },
    {
        match &self.page_info {
            Some(c) => c.copy(),
            None => GGPageInfo::default(),
        }
    }
}

impl Clone for GGStandingConnection {
    fn clone(&self) -> (r: GGStandingConnection)
        ensures
            self.same(&r),
    {
        self.copy()
    }
}

impl Default for GGStandingConnection {
    fn default() -> (r: GGStandingConnection)
        ensures
            r.is_blank(),
    {
        GGStandingConnection {
            nodes: Vec::new(),
            page_info: None,
        }
    }
}

/// Equivalent for start.gg Standing.
///
/// Each element in the structure is optional, allowing a user to only query values they want.
/// Given each is an option and not a requirement, a method is included for each element with the same name.
/// These methods will unwrap and return the proper value without any unwrapping or references needed.
#[derive(Debug)]
pub struct GGStanding {
    pub container: Option<Box<GGStandingContainer>>,
    pub entrant: Option<Box<GGEntrant>>,
    pub id: Option<i64>,
    pub is_final: Option<bool>,
    pub placement: Option<i64>,
    pub player: Option<Box<GGPlayer>>,
    pub stats: Option<Box<GGStandingStats>>,
}

impl GGStanding {
    /// Whether no field was set, as after a query that requested none.
    pub open spec fn is_blank(&self) -> bool {
        &&& self.container is None
        &&& self.entrant is None
        &&& self.id is None
        &&& self.is_final is None
        &&& self.placement is None
        &&& self.player is None
        &&& self.stats is None
    }

    /// Whether `other` holds the same values as `self`, field by field and
    /// through every record and list below it.
    pub open spec fn same(&self, other: &GGStanding) -> bool
        decreases self,
    {
        &&& match (self.container, other.container) {
            (Some(a), Some(b)) => a.same(&b),
            (None, None) => true,
            _ => false,
        }
        &&& match (self.entrant, other.entrant) {
            (Some(a), Some(b)) => a.same(&b),
            (None, None) => true,
            _ => false,
        }
        &&& self.id == other.id
        &&& self.is_final == other.is_final
        &&& self.placement == other.placement
        &&& match (self.player, other.player) {
            (Some(a), Some(b)) => a.same(&b),
            (None, None) => true,
            _ => false,
        }
        &&& match (self.stats, other.stats) {
            (Some(a), Some(b)) => a.same(&b),
            (None, None) => true,
            _ => false,
        }
    }

    /// Returns a copy of the record.
    pub fn copy(&self) -> (r: GGStanding)
        ensures
            self.same(&r),
        decreases self,
    {
        GGStanding {
            container: match &self.container {
                Some(b) => Some(Box::new(b.copy())),
                None => None,
            },
            entrant: match &self.entrant {
                Some(b) => Some(Box::new(b.copy())),
                None => None,
            },
            id: self.id,
            is_final: self.is_final,
            placement: self.placement,
            player: match &self.player {
                Some(b) => Some(Box::new(b.copy())),
                None => None,
            },
            stats: match &self.stats {
                Some(b) => Some(Box::new(b.copy())),
                None => None,
            },
        }
    }

    /// Returns a copy of each record of a list, in order.
    pub fn copy_all(v: &Vec<GGStanding>) -> (r: Vec<GGStanding>)
        ensures
            r@.len() == v@.len(),
            forall|i: int| 0 <= i < v@.len() ==> v@[i].same(&(#[trigger] r@[i])),
        decreases v,
    {
        let mut r: Vec<GGStanding> = Vec::new();
        let mut i: usize = 0;
        while i < v.len()
            invariant
                i <= v@.len(),
                r@.len() == i,
                forall|k: int| 0 <= k < i ==> v@[k].same(&(#[trigger] r@[k])),
            decreases v@.len() - i,
        {
            proof {
                assert(decreases_to!(v => v[i as int]));
            }
            r.push(v[i].copy());
            i = i + 1;
        }
        r
    }

    /// Returns the container of the standing: the tournament, event or phase
    /// group it belongs to.
    ///
    /// Returns `None` if not set or wasn't queried.
    pub fn container(&self) -> (r: Option<GGStandingContainer>)
        ensures
            match self.container {
                Some(c) => r is Some && c.same(&r.unwrap()),
                None => r is None,
            },
    {
        match &self.container {
            Some(c) => Some(c.copy()),
            None => None,
        }
    }

    /// Returns the entrant of the standing.
    ///
    /// Returns an empty entrant if not set or wasn't queried.
    pub fn entrant(&self) -> (r: GGEntrant)
        ensures
            match self.entrant {
                Some(c) => c.same(&r),
                None => r.is_blank(),
            },
    {
        match &self.entrant {
            Some(c) => c.copy(),
            None => GGEntrant::default(),
        }
    }

    /// Returns the id of the standing.
    ///
    /// Returns zero if not set or wasn't queried.
    pub fn id(&self) -> (r: i64)
        ensures
            r == int_or_zero(self.id),
    {
        int_field(self.id)
    }

    /// Returns if the standing is final.
    ///
    /// Returns false if not set or wasn't queried.
    pub fn is_final(&self) -> (r: bool)
        ensures
            r == flag_or_false(self.is_final),
    {
        flag_field(self.is_final)
    }

    /// Returns the placement of the standing.
    ///
    /// Returns zero if not set or wasn't queried.
    pub fn placement(&self) -> (r: i64)
        ensures
            r == int_or_zero(self.placement),
    {
        int_field(self.placement)
    }

    /// Returns the player of the standing.
    ///
    /// Returns an empty player if not set or wasn't queried.
    pub fn player(&self) -> (r: GGPlayer)
        ensures
            match self.player {
                Some(c) => c.same(&r),
                None => r.is_blank(),
            },
    {
        match &self.player {
            Some(c) => c.copy(),
            None => GGPlayer::default(),
        }
    }

    /// Returns the stats of the standing.
    ///
    /// Returns an empty stats if not set or wasn't queried.
    pub fn stats(&self) -> (r: GGStandingStats)
        ensures
            match self.stats {
                Some(c) => c.same(&r),
                None => r.is_blank(),
            },
    {
        match &self.stats {
            Some(c) => c.copy(),
            None => GGStandingStats::default(),
        }
    }
}

impl Clone for GGStanding {
    fn clone(&self) -> (r: GGStanding)
        ensures
            self.same(&r),
    {
        self.copy()
    }
}

impl Default for GGStanding {
    fn default() -> (r: GGStanding)
        ensures
            r.is_blank(),
    {
        GGStanding {
            container: None,
            entrant: None,
            id: None,
            is_final: None,
            placement: None,
            player: None,
            stats: None,
        }
    }
}

} // verus!
