//! start.gg GlobalTeam.

use vstd::prelude::*;

use crate::field::{text_or_empty, text_field, int_or_zero, int_field};
use crate::structs::entrant::GGEntrant;
use crate::structs::event::GGEvent;
use crate::structs::event_team::GGEventTeam;
use crate::structs::event_team::GGEventTeamConnection;
use crate::structs::image::GGImage;
use crate::structs::team_member::GGTeamMember;

verus! {

/// Equivalent for start.gg GlobalTeam.
///
/// Each element in the structure is optional, allowing a user to only query values they want.
/// Given each is an option and not a requirement, a method is included for each element with the same name.
/// These methods will unwrap and return the proper value without any unwrapping or references needed.
#[derive(Debug)]
pub struct GGGlobalTeam {
    pub discriminator: Option<String>,
    pub entrant: Option<Box<GGEntrant>>,
    pub event: Option<Box<GGEvent>>,
    pub event_teams: Option<GGEventTeamConnection>,
    pub id: Option<i64>,
    pub images: Option<Vec<GGImage>>,
    pub league_teams: Option<GGEventTeamConnection>,
    pub members: Option<Vec<GGTeamMember>>,
    pub name: Option<String>,
}

impl GGGlobalTeam {
    /// Whether no field was set, as after a query that requested none.
    pub open spec fn is_blank(&self) -> bool {
        &&& self.discriminator is None
        &&& self.entrant is None
        &&& self.event is None
        &&& self.event_teams is None
        &&& self.id is None
        &&& self.images is None
        &&& self.league_teams is None
        &&& self.members is None
        &&& self.name is None
    }

    /// Whether `other` holds the same values as `self`, field by field and
    /// through every record and list below it.
    pub open spec fn same(&self, other: &GGGlobalTeam) -> bool
        decreases self,
    {
        &&& self.discriminator == other.discriminator
        &&& match (self.entrant, other.entrant) {
            (Some(a), Some(b)) => a.same(&b),
            (None, None) => true,
            _ => false,
        }
        &&& match (self.event, other.event) {
            (Some(a), Some(b)) => a.same(&b),
            (None, None) => true,
            _ => false,
        }
        &&& match (self.event_teams, other.event_teams) {
            (Some(a), Some(b)) => a.same(&b),
            (None, None) => true,
            _ => false,
        }
        &&& self.id == other.id
        &&& match (self.images, other.images) {
            (Some(a), Some(b)) => a@.len() == b@.len() && forall|i: int|
                0 <= i < a@.len() ==> (#[trigger] a@[i]).same(&b@[i]),
            (None, None) => true,
            _ => false,
        }
        &&& match (self.league_teams, other.league_teams) {
            (Some(a), Some(b)) => a.same(&b),
            (None, None) => true,
            _ => false,
        }
        &&& match (self.members, other.members) {
            (Some(a), Some(b)) => a@.len() == b@.len() && forall|i: int|
                0 <= i < a@.len() ==> (#[trigger] a@[i]).same(&b@[i]),
            (None, None) => true,
            _ => false,
        }
        &&& self.name == other.name
    }

    /// Returns a copy of the record.
    pub fn copy(&self) -> (r: GGGlobalTeam)
        ensures
            self.same(&r),
        decreases self,
    {
        GGGlobalTeam {
            discriminator: self.discriminator.clone(),
            entrant: match &self.entrant {
                Some(b) => Some(Box::new(b.copy())),
                None => None,
            },
            event: match &self.event {
                Some(b) => Some(Box::new(b.copy())),
                None => None,
            },
            event_teams: match &self.event_teams {
                Some(c) => Some(c.copy()),
                None => None,
            },
            id: self.id,
            images: match &self.images {
                Some(v) => Some(GGImage::copy_all(v)),
                None => None,
            },
            league_teams: match &self.league_teams {
                Some(c) => Some(c.copy()),
                None => None,
            },
            members: match &self.members {
                Some(v) => Some(GGTeamMember::copy_all(v)),
                None => None,
            },
            name: self.name.clone(),
        }
    }

    /// Returns the discriminator of the global team.
    ///
    /// Returns an empty string if not set or wasn't queried.
    pub fn discriminator(&self) -> (r: String)
        ensures
            r@ == text_or_empty(self.discriminator),
    {
        text_field(&self.discriminator)
    }

    /// Returns the entrant of the global team.
    ///
    /// Returns an empty user if not set or wasn't queried.
    pub fn entrant(&self) -> (r: GGEntrant)
        ensures
            match self.entrant {
                Some(c) => c.same(&r),
                None => r.is_blank(),
            },
    {
        match &self.entrant {
            Some(c) => c.copy(),
            None => GGEntrant::default(),
        }
    }

    /// Returns the event of the global team.
    ///
    /// Returns an empty user if not set or wasn't queried.
    pub fn event(&self) -> (r: GGEvent)
        ensures
            match self.event {
                Some(c) => c.same(&r),
                None => r.is_blank(),
            },
    {
        match &self.event {
            Some(c) => c.copy(),
            None => GGEvent::default(),
        }
    }

    /// Returns the event teams in the global team.
    ///
    /// Returns an empty vector if not set or wasn't queried.
    pub fn event_teams(&self) -> (r: Vec<GGEventTeam>)
        ensures
            match self.event_teams {
                Some(c) => {
                    &&& r@.len() == c.nodes@.len()
                    &&& forall|i: int| 0 <= i < c.nodes@.len() ==> c.nodes@[i].same(&(#[trigger] r@[i]))
                },
                None => r@.len() == 0,
            },
    {
        match &self.event_teams {
            Some(c) => GGEventTeam::copy_all(&c.nodes),
            None => Vec::new(),
        }
    }

    /// Returns the id of the global team.
    ///
    /// Returns zero if not set or wasn't queried.
    pub fn id(&self) -> (r: i64)
        ensures
            r == int_or_zero(self.id),
    {
        int_field(self.id)
    }

    /// Returns the images of the global team.
    ///
    /// Returns an empty vector if not set or wasn't queried.
    pub fn images(&self) -> (r: Vec<GGImage>)
        ensures
            match self.images {
                Some(v) => {
                    &&& r@.len() == v@.len()
                    &&& forall|i: int| 0 <= i < v@.len() ==> v@[i].same(&(#[trigger] r@[i]))
                },
                None => r@.len() == 0,
            },
    {
        match &self.images {
            Some(v) => GGImage::copy_all(v),
            None => Vec::new(),
        }
    }

    /// Returns the league teams in the global team.
    ///
    /// Returns an empty vector if not set or wasn't queried.
    pub fn league_teams(&self) -> (r: Vec<GGEventTeam>)
        ensures
            match self.league_teams {
                Some(c) => {
                    &&& r@.len() == c.nodes@.len()
                    &&& forall|i: int| 0 <= i < c.nodes@.len() ==> c.nodes@[i].same(&(#[trigger] r@[i]))
                },
                None => r@.len() == 0,
            },
    {
        match &self.league_teams {
            Some(c) => GGEventTeam::copy_all(&c.nodes),
            None => Vec::new(),
        }
    }

    /// Returns the members in the global team.
    ///
    /// Returns an empty vector if not set or wasn't queried.
    pub fn members(&self) -> (r: Vec<GGTeamMember>)
        ensures
            match self.members {
                Some(v) => {
                    &&& r@.len() == v@.len()
                    &&& forall|i: int| 0 <= i < v@.len() ==> v@[i].same(&(#[trigger] r@[i]))
                },
                None => r@.len() == 0,
            },
    {
        match &self.members {
            Some(v) => GGTeamMember::copy_all(v),
            None => Vec::new(),
        }
    }

    /// Returns the name of the global team.
    ///
    /// Returns an empty string if not set or wasn't queried.
    pub fn name(&self) -> (r: String)
        ensures
            r@ == text_or_empty(self.name),
    {
        text_field(&self.name)
    }
}

impl Clone for GGGlobalTeam {
    fn clone(&self) -> (r: GGGlobalTeam)
        ensures
            self.same(&r),
    {
        self.copy()
    }
}

impl Default for GGGlobalTeam {
    fn default() -> (r: GGGlobalTeam)
        ensures
            r.is_blank(),
    {
        GGGlobalTeam {
            discriminator: None,
            entrant: None,
            event: None,
            event_teams: None,
            id: None,
            images: None,
            league_teams: None,
            members: None,
            name: None,
        }
    }
}

} // verus!
