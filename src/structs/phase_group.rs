//! start.gg PhaseGroupConnection, start.gg PhaseGroup.

use vstd::prelude::*;

use crate::enums::GGID;
use crate::field::{text_or_empty, text_field, int_or_zero, int_field, id_or_zero, id_field};
use crate::structs::page_info::GGPageInfo;
use crate::structs::phase::GGPhase;
use crate::structs::set::GGSet;
use crate::structs::set::GGSetConnection;
use crate::timestamp::GGTimestamp;

verus! {

/// Equivalent for start.gg PhaseGroupConnection.
#[derive(Debug)]
pub struct GGPhaseGroupConnection {
    pub nodes: Vec<GGPhaseGroup>,
    pub page_info: Option<Box<GGPageInfo>>,
}

impl GGPhaseGroupConnection {
    /// Whether no field was set, as after a query that requested none.
    pub open spec fn is_blank(&self) -> bool {
        &&& self.nodes@.len() == 0
        &&& self.page_info is None
    }

    /// Whether `other` holds the same values as `self`, field by field and
    /// through every record and list below it.
    pub open spec fn same(&self, other: &GGPhaseGroupConnection) -> bool
        decreases self,
    {
        &&& self.nodes@.len() == other.nodes@.len()
        &&& forall|i: int| 0 <= i < self.nodes@.len() ==> (#[trigger] self.nodes@[i]).same(&other.nodes@[i])
        &&& match (self.page_info, other.page_info) {
            (Some(a), Some(b)) => a.same(&b),
            (None, None) => true,
            _ => false,
        }
    }

    /// Returns a copy of the record.
    pub fn copy(&self) -> (r: GGPhaseGroupConnection)
        ensures
            self.same(&r),
        decreases self,
    {
        GGPhaseGroupConnection {
            nodes: GGPhaseGroup::copy_all(&self.nodes),
            page_info: match &self.page_info {
                Some(b) => Some(Box::new(b.copy())),
                None => None,
            },
        }
    }

    /// Returns the page info of the connection.
    ///
    /// Returns empty page info if not set or wasn't queried.
    pub fn page_info(&self) -> (r: GGPageInfo)
        ensures
            match self.page_info {
                Some(c) => c.same(&r),
                None => r.is_blank(),
            },
    {
        match &self.page_info {
            Some(c) => c.copy(),
            None => GGPageInfo::default(),
        }
    }
}

impl Clone for GGPhaseGroupConnection {
    fn clone(&self) -> (r: GGPhaseGroupConnection)
        ensures
            self.same(&r),
    {
        self.copy()
    }
}

impl Default for GGPhaseGroupConnection {
    fn default() -> (r: GGPhaseGroupConnection)
        ensures
            r.is_blank(),
    {
        GGPhaseGroupConnection {
            nodes: Vec::new(),
            page_info: None,
        }
    }
}

/// Equivalent for start.gg PhaseGroup.
///
/// Each element in the structure is optional, allowing a user to only query values they want.
/// Given each is an option and not a requirement, a method is included for each element with the same name.
/// These methods will unwrap and return the proper value without any unwrapping or references needed.
#[derive(Debug)]
pub struct GGPhaseGroup {
    pub bracket_type: Option<i64>,
    pub bracket_url: Option<String>,
    pub display_identifier: Option<String>,
    pub first_round_time: Option<i64>,
    pub id: Option<GGID>,
    pub num_rounds: Option<i64>,
    pub phase: Option<Box<GGPhase>>,
    pub sets: Option<GGSetConnection>,
    pub start_at: Option<i64>,
    pub state: Option<i64>,
}

impl GGPhaseGroup {
    /// Whether no field was set, as after a query that requested none.
    pub open spec fn is_blank(&self) -> bool {
        &&& self.bracket_type is None
        &&& self.bracket_url is None
        &&& self.display_identifier is None
        &&& self.first_round_time is None
        &&& self.id is None
        &&& self.num_rounds is None
        &&& self.phase is None
        &&& self.sets is None
        &&& self.start_at is None
        &&& self.state is None
    }

    /// Whether `other` holds the same values as `self`, field by field and
    /// through every record and list below it.
    pub open spec fn same(&self, other: &GGPhaseGroup) -> bool
        decreases self,
    {
        &&& self.bracket_type == other.bracket_type
        &&& self.bracket_url == other.bracket_url
        &&& self.display_identifier == other.display_identifier
        &&& self.first_round_time == other.first_round_time
        &&& self.id == other.id
        &&& self.num_rounds == other.num_rounds
        &&& match (self.phase, other.phase) {
            (Some(a), Some(b)) => a.same(&b),
            (None, None) => true,
            _ => false,
        }
        &&& match (self.sets, other.sets) {
            (Some(a), Some(b)) => a.same(&b),
            (None, None) => true,
            _ => false,
        }
        &&& self.start_at == other.start_at
        &&& self.state == other.state
    }

    /// Returns a copy of the record.
    pub fn copy(&self) -> (r: GGPhaseGroup)
        ensures
            self.same(&r),
        decreases self,
    {
        GGPhaseGroup {
            bracket_type: self.bracket_type,
            bracket_url: self.bracket_url.clone(),
            display_identifier: self.display_identifier.clone(),
            first_round_time: self.first_round_time,
            id: self.id.clone(),
            num_rounds: self.num_rounds,
            phase: match &self.phase {
                Some(b) => Some(Box::new(b.copy())),
                None => None,
            },
            sets: match &self.sets {
                Some(c) => Some(c.copy()),
                None => None,
            },
            start_at: self.start_at,
            state: self.state,
        }
    }

    /// Returns a copy of each record of a list, in order.
    pub fn copy_all(v: &Vec<GGPhaseGroup>) -> (r: Vec<GGPhaseGroup>)
        ensures
            r@.len() == v@.len(),
            forall|i: int| 0 <= i < v@.len() ==> v@[i].same(&(#[trigger] r@[i])),
        decreases v,
    {
        let mut r: Vec<GGPhaseGroup> = Vec::new();
        let mut i: usize = 0;
        while i < v.len()
            invariant
                i <= v@.len(),
                r@.len() == i,
                forall|k: int| 0 <= k < i ==> v@[k].same(&(#[trigger] r@[k])),
            decreases v@.len() - i,
        {
            proof {
                assert(decreases_to!(v => v[i as int]));
            }
            r.push(v[i].copy());
            i = i + 1;
        }
        r
    }

    /// Returns the bracket type of the phase group.
    ///
    /// Returns zero if not set or wasn't queried.
    pub fn bracket_type(&self) -> (r: i64)
        ensures
            r == int_or_zero(self.bracket_type),
    {
        int_field(self.bracket_type)
    }

    /// Returns the bracket url of the phase group.
    ///
    /// Returns an empty string if not set or wasn't queried.
    pub fn bracket_url(&self) -> (r: String)
        ensures
            r@ == text_or_empty(self.bracket_url),
    {
        text_field(&self.bracket_url)
    }

    /// Returns the display indentifier of the phase group.
    ///
    /// Returns an empty string if not set or wasn't queried.
    pub fn display_identifier(&self) -> (r: String)
        ensures
            r@ == text_or_empty(self.display_identifier),
    {
        text_field(&self.display_identifier)
    }

    /// Returns the time the first round starts.
    ///
    /// Returns zero if not set or wasn't queried.
    pub fn first_round_time(&self) -> (r: GGTimestamp)
        ensures
            r.seconds == int_or_zero(self.first_round_time),
    {
        GGTimestamp { seconds: int_field(self.first_round_time) }
    }

    /// Returns the id of the phase group.
    ///
    /// Returns zero if not set or wasn't queried.
    pub fn id(&self) -> (r: GGID)
        ensures
            r@ == id_or_zero(self.id),
    {
        id_field(&self.id)
    }

    /// Returns the number of round in the phase group.
    ///
    /// Returns zero if not set or wasn't queried.
    pub fn num_rounds(&self) -> (r: i64)
        ensures
            r == int_or_zero(self.num_rounds),
    {
        int_field(self.num_rounds)
    }

    /// Returns the phase the phase group is in.
    ///
    /// Returns an empty tournament if not set or wasn't queried.
    pub fn phase(&self) -> (r: GGPhase)
        ensures
            match self.phase {
                Some(c) => c.same(&r),
                None => r.is_blank(),
            },
    {
        match &self.phase {
            Some(c) => c.copy(),
            None => GGPhase::default(),
        }
    }

    /// Returns the sets in the phase group.
    ///
    /// Returns an empty vector if not set or wasn't queried.
    pub fn sets(&self) -> (r: Vec<GGSet>)
        ensures
            match self.sets {
                Some(c) => {
                    &&& r@.len() == c.nodes@.len()
                    &&& forall|i: int| 0 <= i < c.nodes@.len() ==> c.nodes@[i].same(&(#[trigger] r@[i]))
                },
                None => r@.len() == 0,
            },
    {
        match &self.sets {
            Some(c) => GGSet::copy_all(&c.nodes),
            None => Vec::new(),
        }
    }

    /// Returns the time the phase group starts.
    ///
    /// Returns zero if not set or wasn't queried.
    pub fn start_at(&self) -> (r: GGTimestamp)
        ensures
            r.seconds == int_or_zero(self.start_at),
    {
        GGTimestamp { seconds: int_field(self.start_at) }
    }

    /// Returns the state of the phase group.
    ///
    /// Returns zero if not set or wasn't queried.
    pub fn state(&self) -> (r: i64)
        ensures
            r == int_or_zero(self.state),
    {
        int_field(self.state)
    }
}

impl Clone for GGPhaseGroup {
    fn clone(&self) -> (r: GGPhaseGroup)
        ensures
            self.same(&r),
    {
        self.copy()
    }
}

impl Default for GGPhaseGroup {
    fn default() -> (r: GGPhaseGroup)
        ensures
            r.is_blank(),
    {
        GGPhaseGroup {
            bracket_type: None,
            bracket_url: None,
            display_identifier: None,
            first_round_time: None,
            id: None,
            num_rounds: None,
            phase: None,
            sets: None,
            start_at: None,
            state: None,
        }
    }
}

} // verus!
