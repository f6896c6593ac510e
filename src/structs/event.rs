//! start.gg Events, start.gg Event.

use vstd::prelude::*;

use crate::field::{text_or_empty, text_field, int_or_zero, int_field, flag_or_false, flag_field};
use crate::structs::entrant::GGEntrant;
use crate::structs::entrant::GGEntrantConnection;
use crate::structs::phase::GGPhase;
use crate::structs::phase_group::GGPhaseGroup;
use crate::structs::tournament::GGTournament;
use crate::timestamp::GGTimestamp;

verus! {

/// Equivalent for start.gg Events.
#[derive(Debug)]
pub struct GGEvents {
    pub nodes: Vec<GGEvent>,
}

impl GGEvents {
    /// Whether no field was set, as after a query that requested none.
    pub open spec fn is_blank(&self) -> bool {
        &&& self.nodes@.len() == 0
    }

    /// Whether `other` holds the same values as `self`, field by field and
    /// through every record and list below it.
    pub open spec fn same(&self, other: &GGEvents) -> bool
        decreases self,
    {
        &&& self.nodes@.len() == other.nodes@.len()
        &&& forall|i: int| 0 <= i < self.nodes@.len() ==> (#[trigger] self.nodes@[i]).same(&other.nodes@[i])
    }

    /// Returns a copy of the record.
    pub fn copy(&self) -> (r: GGEvents)
        ensures
            self.same(&r),
        decreases self,
    {
        GGEvents {
            nodes: GGEvent::copy_all(&self.nodes),
        }
    }
}

impl Clone for GGEvents {
    fn clone(&self) -> (r: GGEvents)
        ensures
            self.same(&r),
    {
        self.copy()
    }
}

impl Default for GGEvents {
    fn default() -> (r: GGEvents)
        ensures
            r.is_blank(),
    {
        GGEvents {
            nodes: Vec::new(),
        }
    }
}

/// Equivalent for start.gg Event.
#[derive(Debug)]
pub struct GGEvent {
    pub check_in_buffer: Option<i64>,
    pub check_in_duration: Option<i64>,
    pub check_in_enabled: Option<bool>,
    pub competition_tier: Option<i64>,
    pub created_at: Option<i64>,
    pub deck_submission_deadline: Option<i64>,
    pub entrants: Option<GGEntrantConnection>,
    pub has_decks: Option<bool>,
    pub has_tasks: Option<bool>,
    pub id: Option<i64>,
    pub is_online: Option<bool>,
    pub match_rules_markdown: Option<String>,
    pub name: Option<String>,
    pub num_entrants: Option<i64>,
    pub phase_groups: Option<Vec<GGPhaseGroup>>,
    pub phases: Option<Vec<GGPhase>>,
    pub rules_markdown: Option<String>,
    pub ruleset_id: Option<i64>,
    pub slug: Option<String>,
    pub start_at: Option<i64>,
    pub state: Option<i64>,
    pub team_management_deadline: Option<i64>,
    pub team_name_allowed: Option<bool>,
    pub tournament: Option<Box<GGTournament>>,
    pub type_: Option<i64>,
    pub updated_at: Option<i64>,
    pub use_event_seeds: Option<bool>,
    pub user_entrant: Option<Box<GGEntrant>>,
}

impl GGEvent {
    /// Whether no field was set, as after a query that requested none.
    pub open spec fn is_blank(&self) -> bool {
        &&& self.check_in_buffer is None
        &&& self.check_in_duration is None
        &&& self.check_in_enabled is None
        &&& self.competition_tier is None
        &&& self.created_at is None
        &&& self.deck_submission_deadline is None
        &&& self.entrants is None
        &&& self.has_decks is None
        &&& self.has_tasks is None
        &&& self.id is None
        &&& self.is_online is None
        &&& self.match_rules_markdown is None
        &&& self.name is None
        &&& self.num_entrants is None
        &&& self.phase_groups is None
        &&& self.phases is None
        &&& self.rules_markdown is None
        &&& self.ruleset_id is None
        &&& self.slug is None
        &&& self.start_at is None
        &&& self.state is None
        &&& self.team_management_deadline is None
        &&& self.team_name_allowed is None
        &&& self.tournament is None
        &&& self.type_ is None
        &&& self.updated_at is None
        &&& self.use_event_seeds is None
        &&& self.user_entrant is None
    }

    /// Whether `other` holds the same values as `self`, field by field and
    /// through every record and list below it.
    pub open spec fn same(&self, other: &GGEvent) -> bool
        decreases self,
    {
        &&& self.check_in_buffer == other.check_in_buffer
        &&& self.check_in_duration == other.check_in_duration
        &&& self.check_in_enabled == other.check_in_enabled
        &&& self.competition_tier == other.competition_tier
        &&& self.created_at == other.created_at
        &&& self.deck_submission_deadline == other.deck_submission_deadline
        &&& match (self.entrants, other.entrants) {
            (Some(a), Some(b)) => a.same(&b),
            (None, None) => true,
            _ => false,
        }
        &&& self.has_decks == other.has_decks
        &&& self.has_tasks == other.has_tasks
        &&& self.id == other.id
        &&& self.is_online == other.is_online
        &&& self.match_rules_markdown == other.match_rules_markdown
        &&& self.name == other.name
        &&& self.num_entrants == other.num_entrants
        &&& match (self.phase_groups, other.phase_groups) {
            (Some(a), Some(b)) => a@.len() == b@.len() && forall|i: int|
                0 <= i < a@.len() ==> (#[trigger] a@[i]).same(&b@[i]),
            (None, None) => true,
            _ => false,
        }
        &&& match (self.phases, other.phases) {
            (Some(a), Some(b)) => a@.len() == b@.len() && forall|i: int|
                0 <= i < a@.len() ==> (#[trigger] a@[i]).same(&b@[i]),
            (None, None) => true,
            _ => false,
        }
        &&& self.rules_markdown == other.rules_markdown
        &&& self.ruleset_id == other.ruleset_id
        &&& self.slug == other.slug
        &&& self.start_at == other.start_at
        &&& self.state == other.state
        &&& self.team_management_deadline == other.team_management_deadline
        &&& self.team_name_allowed == other.team_name_allowed
        &&& match (self.tournament, other.tournament) {
            (Some(a), Some(b)) => a.same(&b),
            (None, None) => true,
            _ => false,
        }
        &&& self.type_ == other.type_
        &&& self.updated_at == other.updated_at
        &&& self.use_event_seeds == other.use_event_seeds
        &&& match (self.user_entrant, other.user_entrant) {
            (Some(a), Some(b)) => a.same(&b),
            (None, None) => true,
            _ => false,
        }
    }

    /// Returns a copy of the record.
    pub fn copy(&self) -> (r: GGEvent)
        ensures
            self.same(&r),
        decreases self,
    {
        GGEvent {
            check_in_buffer: self.check_in_buffer,
            check_in_duration: self.check_in_duration,
            check_in_enabled: self.check_in_enabled,
            competition_tier: self.competition_tier,
            created_at: self.created_at,
            deck_submission_deadline: self.deck_submission_deadline,
            entrants: match &self.entrants {
                Some(c) => Some(c.copy()),
                None => None,
            },
            has_decks: self.has_decks,
            has_tasks: self.has_tasks,
            id: self.id,
            is_online: self.is_online,
            match_rules_markdown: self.match_rules_markdown.clone(),
            name: self.name.clone(),
            num_entrants: self.num_entrants,
            phase_groups: match &self.phase_groups {
                Some(v) => Some(GGPhaseGroup::copy_all(v)),
                None => None,
            },
            phases: match &self.phases {
                Some(v) => Some(GGPhase::copy_all(v)),
                None => None,
            },
            rules_markdown: self.rules_markdown.clone(),
            ruleset_id: self.ruleset_id,
            slug: self.slug.clone(),
            start_at: self.start_at,
            state: self.state,
            team_management_deadline: self.team_management_deadline,
            team_name_allowed: self.team_name_allowed,
            tournament: match &self.tournament {
                Some(b) => Some(Box::new(b.copy())),
                None => None,
            },
            type_: self.type_,
            updated_at: self.updated_at,
            use_event_seeds: self.use_event_seeds,
            user_entrant: match &self.user_entrant {
                Some(b) => Some(Box::new(b.copy())),
                None => None,
            },
        }
    }

    /// Returns a copy of each record of a list, in order.
    pub fn copy_all(v: &Vec<GGEvent>) -> (r: Vec<GGEvent>)
        ensures
            r@.len() == v@.len(),
            forall|i: int| 0 <= i < v@.len() ==> v@[i].same(&(#[trigger] r@[i])),
        decreases v,
    {
        let mut r: Vec<GGEvent> = Vec::new();
        let mut i: usize = 0;
        while i < v.len()
            invariant
                i <= v@.len(),
                r@.len() == i,
                forall|k: int| 0 <= k < i ==> v@[k].same(&(#[trigger] r@[k])),
            decreases v@.len() - i,
        {
            proof {
                assert(decreases_to!(v => v[i as int]));
            }
            r.push(v[i].copy());
            i = i + 1;
        }
        r
    }

    /// Returns the check in buffer of the event.
    ///
    /// Returns zero if not set or wasn't queried.
    pub fn check_in_buffer(&self) -> (r: i64)
        ensures
            r == int_or_zero(self.check_in_buffer),
    {
        int_field(self.check_in_buffer)
    }

    /// Returns the check in duration of the event.
    ///
    /// Returns zero if not set or wasn't queried.
    pub fn check_in_duration(&self) -> (r: i64)
        ensures
            r == int_or_zero(self.check_in_duration),
    {
        int_field(self.check_in_duration)
    }

    /// Returns if the event has check in enabled.
    ///
    /// Returns false if not set or wasn't queried.
    pub fn check_in_enabled(&self) -> (r: bool)
        ensures
            r == flag_or_false(self.check_in_enabled),
    {
        flag_field(self.check_in_enabled)
    }

    /// Returns the competition tier of the event.
    ///
    /// Returns zero if not set or wasn't queried.
    pub fn competition_tier(&self) -> (r: i64)
        ensures
            r == int_or_zero(self.competition_tier),
    {
        int_field(self.competition_tier)
    }

    /// Returns the time the event was created.
    ///
    /// Returns zero if not set or wasn't queried.
    pub fn created_at(&self) -> (r: GGTimestamp)
        ensures
            r.seconds == int_or_zero(self.created_at),
    {
        GGTimestamp { seconds: int_field(self.created_at) }
    }

    /// Returns the deck submission deadline of the event.
    ///
    /// Returns zero if not set or wasn't queried.
    pub fn deck_submission_deadline(&self) -> (r: GGTimestamp)
        ensures
            r.seconds == int_or_zero(self.deck_submission_deadline),
    {
        GGTimestamp { seconds: int_field(self.deck_submission_deadline) }
    }

    /// Returns the entrants in the event.
    ///
    /// Returns an empty vector if not set or wasn't queried.
    pub fn entrants(&self) -> (r: Vec<GGEntrant>)
        ensures
            match self.entrants {
                Some(c) => {
                    &&& r@.len() == c.nodes@.len()
                    &&& forall|i: int| 0 <= i < c.nodes@.len() ==> c.nodes@[i].same(&(#[trigger] r@[i]))
                },
                None => r@.len() == 0,
            },
    {
        match &self.entrants {
            Some(c) => GGEntrant::copy_all(&c.nodes),
            None => Vec::new(),
        }
    }

    /// Returns if the event has decks.
    ///
    /// Returns false if not set or wasn't queried.
    pub fn has_decks(&self) -> (r: bool)
        ensures
            r == flag_or_false(self.has_decks),
    {
        flag_field(self.has_decks)
    }

    /// Returns if the event has tasks.
    ///
    /// Returns false if not set or wasn't queried.
    pub fn has_tasks(&self) -> (r: bool)
        ensures
            r == flag_or_false(self.has_tasks),
    {
        flag_field(self.has_tasks)
    }

    /// Returns the id of the event.
    ///
    /// Returns zero if not set or wasn't queried.
    pub fn id(&self) -> (r: i64)
        ensures
            r == int_or_zero(self.id),
    {
        int_field(self.id)
    }

    /// Returns if the event is online.
    ///
    /// Returns false if not set or wasn't queried.
    pub fn is_online(&self) -> (r: bool)
        ensures
            r == flag_or_false(self.is_online),
    {
        flag_field(self.is_online)
    }

    /// Returns the match rules of the event.
    ///
    /// Returns an empty string if not set or wasn't queried.
    pub fn match_rules_markdown(&self) -> (r: String)
        ensures
            r@ == text_or_empty(self.match_rules_markdown),
    {
        text_field(&self.match_rules_markdown)
    }

    /// Returns the name of the event.
    ///
    /// Returns an empty string if not set or wasn't queried.
    pub fn name(&self) -> (r: String)
        ensures
            r@ == text_or_empty(self.name),
    {
        text_field(&self.name)
    }

    /// Returns the number of entrants in the event.
    ///
    /// Returns zero if not set or wasn't queried.
    pub fn num_entrants(&self) -> (r: i64)
        ensures
            r == int_or_zero(self.num_entrants),
    {
        int_field(self.num_entrants)
    }

    /// Returns the phase groups in the event.
    ///
    /// Returns an empty vector if not set or wasn't queried.
    pub fn phase_groups(&self) -> (r: Vec<GGPhaseGroup>)
        ensures
            match self.phase_groups {
                Some(v) => {
                    &&& r@.len() == v@.len()
                    &&& forall|i: int| 0 <= i < v@.len() ==> v@[i].same(&(#[trigger] r@[i]))
                },
                None => r@.len() == 0,
            },
    {
        match &self.phase_groups {
            Some(v) => GGPhaseGroup::copy_all(v),
            None => Vec::new(),
        }
    }

    /// Returns the phases in the event.
    ///
    /// Returns an empty vector if not set or wasn't queried.
    pub fn phases(&self) -> (r: Vec<GGPhase>)
        ensures
            match self.phases {
                Some(v) => {
                    &&& r@.len() == v@.len()
                    &&& forall|i: int| 0 <= i < v@.len() ==> v@[i].same(&(#[trigger] r@[i]))
                },
                None => r@.len() == 0,
            },
    {
        match &self.phases {
            Some(v) => GGPhase::copy_all(v),
            None => Vec::new(),
        }
    }

    /// Returns the rules of the event.
    ///
    /// Returns an empty string if not set or wasn't queried.
    pub fn rules_markdown(&self) -> (r: String)
        ensures
            r@ == text_or_empty(self.rules_markdown),
    {
        text_field(&self.rules_markdown)
    }

    /// Returns the ruleset id of the event.
    ///
    /// Returns zero if not set or wasn't queried.
    pub fn ruleset_id(&self) -> (r: i64)
        ensures
            r == int_or_zero(self.ruleset_id),
    {
        int_field(self.ruleset_id)
    }

    /// Returns the slug of the event.
    ///
    /// Returns an empty string if not set or wasn't queried.
    pub fn slug(&self) -> (r: String)
        ensures
            r@ == text_or_empty(self.slug),
    {
        text_field(&self.slug)
    }

    /// Returns the start time of the event.
    ///
    /// Returns zero if not set or wasn't queried.
    pub fn start_at(&self) -> (r: GGTimestamp)
        ensures
            r.seconds == int_or_zero(self.start_at),
    {
        GGTimestamp { seconds: int_field(self.start_at) }
    }

    /// Returns the state of the event.
    ///
    /// Returns zero if not set or wasn't queried.
    pub fn state(&self) -> (r: i64)
        ensures
            r == int_or_zero(self.state),
    {
        int_field(self.state)
    }

    /// Returns the team management deadline of the event.
    ///
    /// Returns zero if not set or wasn't queried.
    pub fn team_management_deadline(&self) -> (r: GGTimestamp)
        ensures
            r.seconds == int_or_zero(self.team_management_deadline),
    {
        GGTimestamp { seconds: int_field(self.team_management_deadline) }
    }

    /// Returns if the event allows team names.
    ///
    /// Returns false if not set or wasn't queried.
    pub fn team_name_allowed(&self) -> (r: bool)
        ensures
            r == flag_or_false(self.team_name_allowed),
    {
        flag_field(self.team_name_allowed)
    }

    /// Returns the tournament the event is in.
    ///
    /// Returns an empty tournament if not set or wasn't queried.
    pub fn tournament(&self) -> (r: GGTournament)
        ensures
            match self.tournament {
                Some(c) => c.same(&r),
                None => r.is_blank(),
            },
    {
        match &self.tournament {
            Some(c) => c.copy(),
            None => GGTournament::default(),
        }
    }

    /// Returns the type of the event.
    ///
    /// Returns zero if not set or wasn't queried.
    pub fn type_(&self) -> (r: i64)
        ensures
            r == int_or_zero(self.type_),
    {
        int_field(self.type_)
    }

    /// Returns the time the event was last updated.
    ///
    /// Returns zero if not set or wasn't queried.
    pub fn updated_at(&self) -> (r: GGTimestamp)
        ensures
            r.seconds == int_or_zero(self.updated_at),
    {
        GGTimestamp { seconds: int_field(self.updated_at) }
    }

    /// Returns if the event uses event seeds.
    ///
    /// Returns false if not set or wasn't queried.
    pub fn use_event_seeds(&self) -> (r: bool)
        ensures
            r == flag_or_false(self.use_event_seeds),
    {
        flag_field(self.use_event_seeds)
    }

    /// Returns an entrant for a specific user in the event.
    ///
    /// Returns an empty entrant if not set or wasn't queried.
    pub fn user_entrant(&self) -> (r: GGEntrant)
        ensures
            match self.user_entrant {
                Some(c) => c.same(&r),
                None => r.is_blank(),
            },
    {
        match &self.user_entrant {
            Some(c) => c.copy(),
            None => GGEntrant::default(),
        }
    }
}

impl Clone for GGEvent {
    fn clone(&self) -> (r: GGEvent)
        ensures
            self.same(&r),
    {
        self.copy()
    }
}

impl Default for GGEvent {
    fn default() -> (r: GGEvent)
        ensures
            r.is_blank(),
    {
        GGEvent {
            check_in_buffer: None,
            check_in_duration: None,
            check_in_enabled: None,
            competition_tier: None,
            created_at: None,
            deck_submission_deadline: None,
            entrants: None,
            has_decks: None,
            has_tasks: None,
            id: None,
            is_online: None,
            match_rules_markdown: None,
            name: None,
            num_entrants: None,
            phase_groups: None,
            phases: None,
            rules_markdown: None,
            ruleset_id: None,
            slug: None,
            start_at: None,
            state: None,
            team_management_deadline: None,
            team_name_allowed: None,
            tournament: None,
            type_: None,
            updated_at: None,
            use_event_seeds: None,
            user_entrant: None,
        }
    }
}

} // verus!
