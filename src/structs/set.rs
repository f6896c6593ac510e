//! start.gg SetConnection, start.gg Set.

use vstd::prelude::*;

use crate::field::{text_or_empty, text_field, int_or_zero, int_field, flag_or_false, flag_field};
use crate::structs::event::GGEvent;
use crate::structs::game::GGGame;
use crate::structs::image::GGImage;
use crate::structs::page_info::GGPageInfo;
use crate::structs::phase_group::GGPhaseGroup;
use crate::structs::set_slot::GGSetSlot;
use crate::structs::stations::GGStations;
use crate::structs::streams::GGStreams;
use crate::timestamp::GGTimestamp;

verus! {

/// Equivalent for start.gg SetConnection.
#[derive(Debug)]
pub struct GGSetConnection {
    pub nodes: Vec<GGSet>,
    pub page_info: Option<Box<GGPageInfo>>,
}

impl GGSetConnection {
    /// Whether no field was set, as after a query that requested none.
    pub open spec fn is_blank(&self) -> bool {
        &&& self.nodes@.len() == 0
        &&& self.page_info is None
    }

    /// Whether `other` holds the same values as `self`, field by field and
    /// through every record and list below it.
    pub open spec fn same(&self, other: &GGSetConnection) -> bool
        decreases self,
    {
        &&& self.nodes@.len() == other.nodes@.len()
        &&& forall|i: int| 0 <= i < self.nodes@.len() ==> (#[trigger] self.nodes@[i]).same(&other.nodes@[i])
        &&& match (self.page_info, other.page_info) {
            (Some(a), Some(b)) => a.same(&b),
            (None, None) => true,
            _ => false,
        }
    }

    /// Returns a copy of the record.
    pub fn copy(&self) -> (r: GGSetConnection)
        ensures
            self.same(&r),
        decreases self,
    {
        GGSetConnection {
            nodes: GGSet::copy_all(&self.nodes),
            page_info: match &self.page_info {
                Some(b) => Some(Box::new(b.copy())),
                None => None,
            },
        }
    }

    /// Returns the page info of the connection.
    ///
    /// Returns empty page info if not set or wasn't queried.
    pub fn page_info(&self) -> (r: GGPageInfo)
        ensures
            match self.page_info {
                Some(c) => c.same(&r),
                None => r.is_blank(),
            },
    {
        match &self.page_info {
            Some(c) => c.copy(),
            None => GGPageInfo::default(),
        }
    }
}

impl Clone for GGSetConnection {
    fn clone(&self) -> (r: GGSetConnection)
        ensures
            self.same(&r),
    {
        self.copy()
    }
}

impl Default for GGSetConnection {
    fn default() -> (r: GGSetConnection)
        ensures
            r.is_blank(),
    {
        GGSetConnection {
            nodes: Vec::new(),
            page_info: None,
        }
    }
}

/// Equivalent for start.gg Set.
///
/// Each element in the structure is optional, allowing a user to only query values they want.
/// Given each is an option and not a requirement, a method is included for each element with the same name.
/// These methods will unwrap and return the proper value without any unwrapping or references needed.
#[derive(Debug)]
pub struct GGSet {
    pub completed_at: Option<i64>,
    pub created_at: Option<i64>,
    pub display_score: Option<String>,
    pub event: Option<Box<GGEvent>>,
    pub full_round_text: Option<String>,
    pub game: Option<Box<GGGame>>,
    pub games: Option<Vec<GGGame>>,
    pub has_placeholder: Option<bool>,
    pub id: Option<i64>,
    pub identifier: Option<String>,
    pub images: Option<Vec<GGImage>>,
    pub l_placement: Option<i64>,
    pub phase_group: Option<Box<GGPhaseGroup>>,
    pub round: Option<i64>,
    pub set_games_type: Option<i64>,
    pub slots: Option<Vec<GGSetSlot>>,
    pub start_at: Option<i64>,
    pub started_at: Option<i64>,
    pub state: Option<i64>,
    pub station: Option<Box<GGStations>>,
    pub stream: Option<Box<GGStreams>>,
    pub total_games: Option<i64>,
    pub vod_url: Option<String>,
    pub w_placement: Option<i64>,
    pub winner_id: Option<i64>,
}

impl GGSet {
    /// Whether no field was set, as after a query that requested none.
    pub open spec fn is_blank(&self) -> bool {
        &&& self.completed_at is None
        &&& self.created_at is None
        &&& self.display_score is None
        &&& self.event is None
        &&& self.full_round_text is None
        &&& self.game is None
        &&& self.games is None
        &&& self.has_placeholder is None
        &&& self.id is None
        &&& self.identifier is None
        &&& self.images is None
        &&& self.l_placement is None
        &&& self.phase_group is None
        &&& self.round is None
        &&& self.set_games_type is None
        &&& self.slots is None
        &&& self.start_at is None
        &&& self.started_at is None
        &&& self.state is None
        &&& self.station is None
        &&& self.stream is None
        &&& self.total_games is None
        &&& self.vod_url is None
        &&& self.w_placement is None
        &&& self.winner_id is None
    }

    /// Whether `other` holds the same values as `self`, field by field and
    /// through every record and list below it.
    pub open spec fn same(&self, other: &GGSet) -> bool
        decreases self,
    {
        &&& self.completed_at == other.completed_at
        &&& self.created_at == other.created_at
        &&& self.display_score == other.display_score
        &&& match (self.event, other.event) {
            (Some(a), Some(b)) => a.same(&b),
            (None, None) => true,
            _ => false,
        }
        &&& self.full_round_text == other.full_round_text
        &&& match (self.game, other.game) {
            (Some(a), Some(b)) => a.same(&b),
            (None, None) => true,
            _ => false,
        }
        &&& match (self.games, other.games) {
            (Some(a), Some(b)) => a@.len() == b@.len() && forall|i: int|
                0 <= i < a@.len() ==> (#[trigger] a@[i]).same(&b@[i]),
            (None, None) => true,
            _ => false,
        }
        &&& self.has_placeholder == other.has_placeholder
        &&& self.id == other.id
        &&& self.identifier == other.identifier
        &&& match (self.images, other.images) {
            (Some(a), Some(b)) => a@.len() == b@.len() && forall|i: int|
                0 <= i < a@.len() ==> (#[trigger] a@[i]).same(&b@[i]),
            (None, None) => true,
            _ => false,
        }
        &&& self.l_placement == other.l_placement
        &&& match (self.phase_group, other.phase_group) {
            (Some(a), Some(b)) => a.same(&b),
            (None, None) => true,
            _ => false,
        }
        &&& self.round == other.round
        &&& self.set_games_type == other.set_games_type
        &&& match (self.slots, other.slots) {
            (Some(a), Some(b)) => a@.len() == b@.len() && forall|i: int|
                0 <= i < a@.len() ==> (#[trigger] a@[i]).same(&b@[i]),
            (None, None) => true,
            _ => false,
        }
        &&& self.start_at == other.start_at
        &&& self.started_at == other.started_at
        &&& self.state == other.state
        &&& match (self.station, other.station) {
            (Some(a), Some(b)) => a.same(&b),
            (None, None) => true,
            _ => false,
        }
        &&& match (self.stream, other.stream) {
            (Some(a), Some(b)) => a.same(&b),
            (None, None) => true,
            _ => false,
        }
        &&& self.total_games == other.total_games
        &&& self.vod_url == other.vod_url
        &&& self.w_placement == other.w_placement
        &&& self.winner_id == other.winner_id
    }

    /// Returns a copy of the record.
    pub fn copy(&self) -> (r: GGSet)
        ensures
            self.same(&r),
        decreases self,
    {
        GGSet {
            completed_at: self.completed_at,
            created_at: self.created_at,
            display_score: self.display_score.clone(),
            event: match &self.event {
                Some(b) => Some(Box::new(b.copy())),
                None => None,
            },
            full_round_text: self.full_round_text.clone(),
            game: match &self.game {
                Some(b) => Some(Box::new(b.copy())),
                None => None,
            },
            games: match &self.games {
                Some(v) => Some(GGGame::copy_all(v)),
                None => None,
            },
            has_placeholder: self.has_placeholder,
            id: self.id,
            identifier: self.identifier.clone(),
            images: match &self.images {
                Some(v) => Some(GGImage::copy_all(v)),
                None => None,
            },
            l_placement: self.l_placement,
            phase_group: match &self.phase_group {
                Some(b) => Some(Box::new(b.copy())),
                None => None,
            },
            round: self.round,
            set_games_type: self.set_games_type,
            slots: match &self.slots {
                Some(v) => Some(GGSetSlot::copy_all(v)),
                None => None,
            },
            start_at: self.start_at,
            started_at: self.started_at,
            state: self.state,
            station: match &self.station {
                Some(b) => Some(Box::new(b.copy())),
                None => None,
            },
            stream: match &self.stream {
                Some(b) => Some(Box::new(b.copy())),
                None => None,
            },
            total_games: self.total_games,
            vod_url: self.vod_url.clone(),
            w_placement: self.w_placement,
            winner_id: self.winner_id,
        }
    }

    /// Returns a copy of each record of a list, in order.
    pub fn copy_all(v: &Vec<GGSet>) -> (r: Vec<GGSet>)
        ensures
            r@.len() == v@.len(),
            forall|i: int| 0 <= i < v@.len() ==> v@[i].same(&(#[trigger] r@[i])),
        decreases v,
    {
        let mut r: Vec<GGSet> = Vec::new();
        let mut i: usize = 0;
        while i < v.len()
            invariant
                i <= v@.len(),
                r@.len() == i,
                forall|k: int| 0 <= k < i ==> v@[k].same(&(#[trigger] r@[k])),
            decreases v@.len() - i,
        {
            proof {
                assert(decreases_to!(v => v[i as int]));
            }
            r.push(v[i].copy());
            i = i + 1;
        }
        r
    }

    /// Returns the time the set was completed.
    ///
    /// Returns zero if not set or wasn't queried.
    pub fn completed_at(&self) -> (r: GGTimestamp)
        ensures
            r.seconds == int_or_zero(self.completed_at),
    {
        GGTimestamp { seconds: int_field(self.completed_at) }
    }

    /// Returns the time the set was created.
    ///
    /// Returns zero if not set or wasn't queried.
    pub fn created_at(&self) -> (r: GGTimestamp)
        ensures
            r.seconds == int_or_zero(self.created_at),
    {
        GGTimestamp { seconds: int_field(self.created_at) }
    }

    /// Returns the display score of the set.
    ///
    /// Returns an empty string if not set or wasn't queried.
    pub fn display_score(&self) -> (r: String)
        ensures
            r@ == text_or_empty(self.display_score),
    {
        text_field(&self.display_score)
    }

    /// Returns the event the set is in.
    ///
    /// Returns an empty event if not set or wasn't queried.
    pub fn event(&self) -> (r: GGEvent)
        ensures
            match self.event {
                Some(c) => c.same(&r),
                None => r.is_blank(),
            },
    {
        match &self.event {
            Some(c) => c.copy(),
            None => GGEvent::default(),
        }
    }

    /// Returns the full round text of the set.
    ///
    /// Returns an empty string if not set or wasn't queried.
    pub fn full_round_text(&self) -> (r: String)
        ensures
            r@ == text_or_empty(self.full_round_text),
    {
        text_field(&self.full_round_text)
    }

    /// Returns the requested game of the set.
    ///
    /// Returns an empty event if not set or wasn't queried.
    pub fn game(&self) -> (r: GGGame)
        ensures
            match self.game {
                Some(c) => c.same(&r),
                None => r.is_blank(),
            },
    {
        match &self.game {
            Some(c) => c.copy(),
            None => GGGame::default(),
        }
    }

    /// Returns the games in the set.
    ///
    /// Returns an empty vector if not set or wasn't queried.
    pub fn games(&self) -> (r: Vec<GGGame>)
        ensures
            match self.games {
                Some(v) => {
                    &&& r@.len() == v@.len()
                    &&& forall|i: int| 0 <= i < v@.len() ==> v@[i].same(&(#[trigger] r@[i]))
                },
                None => r@.len() == 0,
            },
    {
        match &self.games {
            Some(v) => GGGame::copy_all(v),
            None => Vec::new(),
        }
    }

    /// Returns if the set has a placeholder.
    ///
    /// Returns false if not set or wasn't queried.
    pub fn has_placeholder(&self) -> (r: bool)
        ensures
            r == flag_or_false(self.has_placeholder),
    {
        flag_field(self.has_placeholder)
    }

    /// Returns the id of the set.
    ///
    /// Returns zero if not set or wasn't queried.
    pub fn id(&self) -> (r: i64)
        ensures
            r == int_or_zero(self.id),
    {
        int_field(self.id)
    }

    /// Returns the identifier of the set.
    ///
    /// Returns an empty string if not set or wasn't queried.
    pub fn identifier(&self) -> (r: String)
        ensures
            r@ == text_or_empty(self.identifier),
    {
        text_field(&self.identifier)
    }

    /// Returns the images in the set.
    ///
    /// Returns an empty vector if not set or wasn't queried.
    pub fn images(&self) -> (r: Vec<GGImage>)
        ensures
            match self.images {
                Some(v) => {
                    &&& r@.len() == v@.len()
                    &&& forall|i: int| 0 <= i < v@.len() ==> v@[i].same(&(#[trigger] r@[i]))
                },
                None => r@.len() == 0,
            },
    {
        match &self.images {
            Some(v) => GGImage::copy_all(v),
            None => Vec::new(),
        }
    }

    /// Returns the loser's placement of the set.
    ///
    /// Returns zero if not set or wasn't queried.
    pub fn l_placement(&self) -> (r: i64)
        ensures
            r == int_or_zero(self.l_placement),
    {
        int_field(self.l_placement)
    }

    /// Returns the phase group of the set.
    ///
    /// Returns an empty event if not set or wasn't queried.
    pub fn phase_group(&self) -> (r: GGPhaseGroup)
        ensures
            match self.phase_group {
                Some(c) => c.same(&r),
                None => r.is_blank(),
            },
    {
        match &self.phase_group {
            Some(c) => c.copy(),
            None => GGPhaseGroup::default(),
        }
    }

    /// Returns the round of the set.
    ///
    /// Returns zero if not set or wasn't queried.
    pub fn round(&self) -> (r: i64)
        ensures
            r == int_or_zero(self.round),
    {
        int_field(self.round)
    }

    /// Returns the set games type of the set.
    ///
    /// Returns zero if not set or wasn't queried.
    pub fn set_games_type(&self) -> (r: i64)
        ensures
            r == int_or_zero(self.set_games_type),
    {
        int_field(self.set_games_type)
    }

    /// Returns the slots in the set.
    ///
    /// Returns an empty vector if not set or wasn't queried.
    pub fn slots(&self) -> (r: Vec<GGSetSlot>)
        ensures
            match self.slots {
                Some(v) => {
                    &&& r@.len() == v@.len()
                    &&& forall|i: int| 0 <= i < v@.len() ==> v@[i].same(&(#[trigger] r@[i]))
                },
                None => r@.len() == 0,
            },
    {
        match &self.slots {
            Some(v) => GGSetSlot::copy_all(v),
            None => Vec::new(),
        }
    }

    /// Returns the time the set starts at.
    ///
    /// Returns zero if not set or wasn't queried.
    pub fn start_at(&self) -> (r: GGTimestamp)
        ensures
            r.seconds == int_or_zero(self.start_at),
    {
        GGTimestamp { seconds: int_field(self.start_at) }
    }

    /// Returns the time the set started at.
    ///
    /// Returns zero if not set or wasn't queried.
    pub fn started_at(&self) -> (r: GGTimestamp)
        ensures
            r.seconds == int_or_zero(self.started_at),
    {
        GGTimestamp { seconds: int_field(self.started_at) }
    }

    /// Returns the state of the set.
    ///
    /// Returns zero if not set or wasn't queried.
    pub fn state(&self) -> (r: i64)
        ensures
            r == int_or_zero(self.state),
    {
        int_field(self.state)
    }

    /// Returns the station of the set.
    ///
    /// Returns an empty station if not set or wasn't queried.
    pub fn station(&self) -> (r: GGStations)
        ensures
            match self.station {
                Some(c) => c.same(&r),
                None => r.is_blank(),
            },
    {
        match &self.station {
            Some(c) => c.copy(),
            None => GGStations::default(),
        }
    }

    /// Returns the stream of the set.
    ///
    /// Returns an empty stream if not set or wasn't queried.
    pub fn stream(&self) -> (r: GGStreams)
        ensures
            match self.stream {
                Some(c) => c.same(&r),
                None => r.is_blank(),
            },
    {
        match &self.stream {
            Some(c) => c.copy(),
            None => GGStreams::default(),
        }
    }

    /// Returns the total games of the set.
    ///
    /// Returns zero if not set or wasn't queried.
    pub fn total_games(&self) -> (r: i64)
        ensures
            r == int_or_zero(self.total_games),
    {
        int_field(self.total_games)
    }

    /// Returns the VOD url of the set.
    ///
    /// Returns an empty string if not set or wasn't queried.
    pub fn vod_url(&self) -> (r: String)
        ensures
            r@ == text_or_empty(self.vod_url),
    {
        text_field(&self.vod_url)
    }

    /// Returns the winner's placement of the set.
    ///
    /// Returns zero if not set or wasn't queried.
    pub fn w_placement(&self) -> (r: i64)
        ensures
            r == int_or_zero(self.w_placement),
    {
        int_field(self.w_placement)
    }

    /// Returns the winner id of the set.
    ///
    /// Returns zero if not set or wasn't queried.
    pub fn winner_id(&self) -> (r: i64)
        ensures
            r == int_or_zero(self.winner_id),
    {
        int_field(self.winner_id)
    }
}

impl Clone for GGSet {
    fn clone(&self) -> (r: GGSet)
        ensures
            self.same(&r),
    {
        self.copy()
    }
}

impl Default for GGSet {
    fn default() -> (r: GGSet)
        ensures
            r.is_blank(),
    {
        GGSet {
            completed_at: None,
            created_at: None,
            display_score: None,
            event: None,
            full_round_text: None,
            game: None,
            games: None,
            has_placeholder: None,
            id: None,
            identifier: None,
            images: None,
            l_placement: None,
            phase_group: None,
            round: None,
            set_games_type: None,
            slots: None,
            start_at: None,
            started_at: None,
            state: None,
            station: None,
            stream: None,
            total_games: None,
            vod_url: None,
            w_placement: None,
            winner_id: None,
        }
    }
}

} // verus!
