//! start.gg Data.

use vstd::prelude::*;

use crate::structs::entrant::GGEntrant;
use crate::structs::event::GGEvent;
use crate::structs::participant::GGParticipant;
use crate::structs::phase::GGPhase;
use crate::structs::phase_group::GGPhaseGroup;
use crate::structs::player::GGPlayer;
use crate::structs::tournament::GGTournament;
use crate::structs::tournament::GGTournamentConnection;
use crate::structs::user::GGUser;
use crate::structs::videogame::GGVideogame;
use crate::structs::videogame::GGVideogameConnection;

verus! {

/// Equivalent for start.gg Query.
///
/// Each element in the structure is optional, allowing a user to only query values they want.
/// Given each is an option and not a requirement, a method is included for each element with the same name.
/// These methods will unwrap and return the proper value without any unwrapping or references needed.
/// Certain methods (see tournaments()) will return a vector of the data type instead of a connection to a vector, done to simplify the API and make the start.gg api easier to work with.
#[derive(Debug)]
pub struct GGData {
    pub current_user: Option<Box<GGUser>>,
    pub entrant: Option<Box<GGEntrant>>,
    pub event: Option<Box<GGEvent>>,
    pub participant: Option<Box<GGParticipant>>,
    pub phase: Option<Box<GGPhase>>,
    pub phase_group: Option<Box<GGPhaseGroup>>,
    pub player: Option<Box<GGPlayer>>,
    pub tournament: Option<Box<GGTournament>>,
    pub tournaments: Option<Box<GGTournamentConnection>>,
    pub user: Option<Box<GGUser>>,
    pub videogame: Option<Box<GGVideogame>>,
    pub videogames: Option<Box<GGVideogameConnection>>,
}

impl GGData {
    /// Whether no field was set, as after a query that requested none.
    pub open spec fn is_blank(&self) -> bool {
        &&& self.current_user is None
        &&& self.entrant is None
        &&& self.event is None
        &&& self.participant is None
        &&& self.phase is None
        &&& self.phase_group is None
        &&& self.player is None
        &&& self.tournament is None
        &&& self.tournaments is None
        &&& self.user is None
        &&& self.videogame is None
        &&& self.videogames is None
    }

    /// Whether `other` holds the same values as `self`, field by field and
    /// through every record and list below it.
    pub open spec fn same(&self, other: &GGData) -> bool
        decreases self,
    {
        &&& match (self.current_user, other.current_user) {
            (Some(a), Some(b)) => a.same(&b),
            (None, None) => true,
            _ => false,
        }
        &&& match (self.entrant, other.entrant) {
            (Some(a), Some(b)) => a.same(&b),
            (None, None) => true,
            _ => false,
        }
        &&& match (self.event, other.event) {
            (Some(a), Some(b)) => a.same(&b),
            (None, None) => true,
            _ => false,
        }
        &&& match (self.participant, other.participant) {
            (Some(a), Some(b)) => a.same(&b),
            (None, None) => true,
            _ => false,
        }
        &&& match (self.phase, other.phase) {
            (Some(a), Some(b)) => a.same(&b),
            (None, None) => true,
            _ => false,
        }
        &&& match (self.phase_group, other.phase_group) {
            (Some(a), Some(b)) => a.same(&b),
            (None, None) => true,
            _ => false,
        }
        &&& match (self.player, other.player) {
            (Some(a), Some(b)) => a.same(&b),
            (None, None) => true,
            _ => false,
        }
        &&& match (self.tournament, other.tournament) {
            (Some(a), Some(b)) => a.same(&b),
            (None, None) => true,
            _ => false,
        }
        &&& match (self.tournaments, other.tournaments) {
            (Some(a), Some(b)) => a.same(&b),
            (None, None) => true,
            _ => false,
        }
        &&& match (self.user, other.user) {
            (Some(a), Some(b)) => a.same(&b),
            (None, None) => true,
            _ => false,
        }
        &&& match (self.videogame, other.videogame) {
            (Some(a), Some(b)) => a.same(&b),
            (None, None) => true,
            _ => false,
        }
        &&& match (self.videogames, other.videogames) {
            (Some(a), Some(b)) => a.same(&b),
            (None, None) => true,
            _ => false,
        }
    }

    /// Returns a copy of the record.
    pub fn copy(&self) -> (r: GGData)
        ensures
            self.same(&r),
        decreases self,
    {
        GGData {
            current_user: match &self.current_user {
                Some(b) => Some(Box::new(b.copy())),
                None => None,
            },
            entrant: match &self.entrant {
                Some(b) => Some(Box::new(b.copy())),
                None => None,
            },
            event: match &self.event {
                Some(b) => Some(Box::new(b.copy())),
                None => None,
            },
            participant: match &self.participant {
                Some(b) => Some(Box::new(b.copy())),
                None => None,
            },
            phase: match &self.phase {
                Some(b) => Some(Box::new(b.copy())),
                None => None,
            },
            phase_group: match &self.phase_group {
                Some(b) => Some(Box::new(b.copy())),
                None => None,
            },
            player: match &self.player {
                Some(b) => Some(Box::new(b.copy())),
                None => None,
            },
            tournament: match &self.tournament {
                Some(b) => Some(Box::new(b.copy())),
                None => None,
            },
            tournaments: match &self.tournaments {
                Some(b) => Some(Box::new(b.copy())),
                None => None,
            },
            user: match &self.user {
                Some(b) => Some(Box::new(b.copy())),
                None => None,
            },
            videogame: match &self.videogame {
                Some(b) => Some(Box::new(b.copy())),
                None => None,
            },
            videogames: match &self.videogames {
                Some(b) => Some(Box::new(b.copy())),
                None => None,
            },
        }
    }

    /// Returns the current user.
    ///
    /// Returns an empty user if not set or wasn't queried.
    pub fn current_user(&self) -> (r: GGUser)
        ensures
            match self.current_user {
                Some(c) => c.same(&r),
                None => r.is_blank(),
            },
    {
        match &self.current_user {
            Some(c) => c.copy(),
            None => GGUser::default(),
        }
    }

    /// Returns the entrant.
    ///
    /// Returns an empty entrant if not set or wasn't queried.
    pub fn entrant(&self) -> (r: GGEntrant)
        ensures
            match self.entrant {
                Some(c) => c.same(&r),
                None => r.is_blank(),
            },
    {
        match &self.entrant {
            Some(c) => c.copy(),
            None => GGEntrant::default(),
        }
    }

    /// Returns the event.
    ///
    /// Returns an empty event if not set or wasn't queried.
    pub fn event(&self) -> (r: GGEvent)
        ensures
            match self.event {
                Some(c) => c.same(&r),
                None => r.is_blank(),
            },
    {
        match &self.event {
            Some(c) => c.copy(),
            None => GGEvent::default(),
        }
    }

    /// Returns the participant.
    ///
    /// Returns an empty participant if not set or wasn't queried.
    pub fn participant(&self) -> (r: GGParticipant)
        ensures
            match self.participant {
                Some(c) => c.same(&r),
                None => r.is_blank(),
            },
    {
        match &self.participant {
            Some(c) => c.copy(),
            None => GGParticipant::default(),
        }
    }

    /// Returns the phase.
    ///
    /// Returns an empty phase if not set or wasn't queried.
    pub fn phase(&self) -> (r: GGPhase)
        ensures
            match self.phase {
                Some(c) => c.same(&r),
                None => r.is_blank(),
            },
    {
        match &self.phase {
            Some(c) => c.copy(),
            None => GGPhase::default(),
        }
    }

    /// Returns the phase group.
    ///
    /// Returns an empty phase group if not set or wasn't queried.
    pub fn phase_group(&self) -> (r: GGPhaseGroup)
        ensures
            match self.phase_group {
                Some(c) => c.same(&r),
                None => r.is_blank(),
            },
    {
        match &self.phase_group {
            Some(c) => c.copy(),
            None => GGPhaseGroup::default(),
        }
    }

    /// Returns the player.
    ///
    /// Returns an empty player if not set or wasn't queried.
    pub fn player(&self) -> (r: GGPlayer)
        ensures
            match self.player {
                Some(c) => c.same(&r),
                None => r.is_blank(),
            },
    {
        match &self.player {
            Some(c) => c.copy(),
            None => GGPlayer::default(),
        }
    }

    /// Returns the tournament.
    ///
    /// Returns an empty tournament if not set or wasn't queried.
    pub fn tournament(&self) -> (r: GGTournament)
        ensures
            match self.tournament {
                Some(c) => c.same(&r),
                None => r.is_blank(),
            },
    {
        match &self.tournament {
            Some(c) => c.copy(),
            None => GGTournament::default(),
        }
    }

    /// Returns a vector of tournaments.
    ///
    /// Returns an empty vector if not set or wasn't queried.
    pub fn tournaments(&self) -> (r: Vec<GGTournament>)
        ensures
            match self.tournaments {
                Some(c) => {
                    &&& r@.len() == c.nodes@.len()
                    &&& forall|i: int| 0 <= i < c.nodes@.len() ==> c.nodes@[i].same(&(#[trigger] r@[i]))
                },
                None => r@.len() == 0,
            },
    {
        match &self.tournaments {
            Some(c) => GGTournament::copy_all(&c.nodes),
            None => Vec::new(),
        }
    }

    /// Returns the user.
    ///
    /// Returns an empty user if not set or wasn't queried.
    pub fn user(&self) -> (r: GGUser)
        ensures
            match self.user {
                Some(c) => c.same(&r),
                None => r.is_blank(),
            },
    {
        match &self.user {
            Some(c) => c.copy(),
            None => GGUser::default(),
        }
    }

    /// Returns the videogame.
    ///
    /// Returns an empty videogame if not set or wasn't queried.
    pub fn videogame(&self) -> (r: GGVideogame)
        ensures
            match self.videogame {
                Some(c) => c.same(&r),
                None => r.is_blank(),
            },
    {
        match &self.videogame {
            Some(c) => c.copy(),
            None => GGVideogame::default(),
        }
    }

    /// Returns a vector of videogames.
    ///
    /// Returns an empty vector if not set or wasn't queried.
    pub fn videogames(&self) -> (r: Vec<GGVideogame>)
        ensures
            match self.videogames {
                Some(c) => {
                    &&& r@.len() == c.nodes@.len()
                    &&& forall|i: int| 0 <= i < c.nodes@.len() ==> c.nodes@[i].same(&(#[trigger] r@[i]))
                },
                None => r@.len() == 0,
            },
    {
        match &self.videogames {
            Some(c) => GGVideogame::copy_all(&c.nodes),
            None => Vec::new(),
        }
    }
}

impl Clone for GGData {
    fn clone(&self) -> (r: GGData)
        ensures
            self.same(&r),
    {
        self.copy()
    }
}

impl Default for GGData {
    fn default() -> (r: GGData)
        ensures
            r.is_blank(),
    {
        GGData {
            current_user: None,
            entrant: None,
            event: None,
            participant: None,
            phase: None,
            phase_group: None,
            player: None,
            tournament: None,
            tournaments: None,
            user: None,
            videogame: None,
            videogames: None,
        }
    }
}

} // verus!
