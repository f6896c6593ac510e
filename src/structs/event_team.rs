//! start.gg EventTeamConnection, start.gg EventTeam.

use vstd::prelude::*;

use crate::field::{text_or_empty, text_field, int_or_zero, int_field};
use crate::structs::entrant::GGEntrant;
use crate::structs::event::GGEvent;
use crate::structs::global_team::GGGlobalTeam;
use crate::structs::image::GGImage;
use crate::structs::page_info::GGPageInfo;
use crate::structs::team_member::GGTeamMember;

verus! {

/// Equivalent for start.gg EventTeamConnection.
#[derive(Debug)]
pub struct GGEventTeamConnection {
    pub nodes: Vec<GGEventTeam>,
    pub page_info: Option<Box<GGPageInfo>>,
}

impl GGEventTeamConnection {
    /// Whether no field was set, as after a query that requested none.
    pub open spec fn is_blank(&self) -> bool {
        &&& self.nodes@.len() == 0
        &&& self.page_info is None
    }

    /// Whether `other` holds the same values as `self`, field by field and
    /// through every record and list below it.
    pub open spec fn same(&self, other: &GGEventTeamConnection) -> bool
        decreases self,
    {
        &&& self.nodes@.len() == other.nodes@.len()
        &&& forall|i: int| 0 <= i < self.nodes@.len() ==> (#[trigger] self.nodes@[i]).same(&other.nodes@[i])
        &&& match (self.page_info, other.page_info) {
            (Some(a), Some(b)) => a.same(&b),
            (None, None) => true,
            _ => false,
        }
    }

    /// Returns a copy of the record.
    pub fn copy(&self) -> (r: GGEventTeamConnection)
        ensures
            self.same(&r),
        decreases self,
    {
        GGEventTeamConnection {
            nodes: GGEventTeam::copy_all(&self.nodes),
            page_info: match &self.page_info {
                Some(b) => Some(Box::new(b.copy())),
                None => None,
            },
        }
    }

    /// Returns the page info of the connection.
    ///
    /// Returns empty page info if not set or wasn't queried.
    pub fn page_info(&self) -> (r: GGPageInfo)
        ensures
            match self.page_info {
                Some(c) => c.same(&r),
                None => r.is_blank(),
            },
    {
        match &self.page_info {
            Some(c) => c.copy(),
            None => GGPageInfo::default(),
        }
    }
}

impl Clone for GGEventTeamConnection {
    fn clone(&self) -> (r: GGEventTeamConnection)
        ensures
            self.same(&r),
    {
        self.copy()
    }
}

impl Default for GGEventTeamConnection {
    fn default() -> (r: GGEventTeamConnection)
        ensures
            r.is_blank(),
    {
        GGEventTeamConnection {
            nodes: Vec::new(),
            page_info: None,
        }
    }
}

/// Equivalent for start.gg EventTeam.
///
/// Each element in the structure is optional, allowing a user to only query values they want.
/// Given each is an option and not a requirement, a method is included for each element with the same name.
/// These methods will unwrap and return the proper value without any unwrapping or references needed.
#[derive(Debug)]
pub struct GGEventTeam {
    pub discriminator: Option<String>,
    pub entrant: Option<Box<GGEntrant>>,
    pub event: Option<Box<GGEvent>>,
    pub global_team: Option<Box<GGGlobalTeam>>,
    pub id: Option<i64>,
    pub images: Option<Vec<GGImage>>,
    pub members: Option<Vec<GGTeamMember>>,
    pub name: Option<String>,
}

impl GGEventTeam {
    /// Whether no field was set, as after a query that requested none.
    pub open spec fn is_blank(&self) -> bool {
        &&& self.discriminator is None
        &&& self.entrant is None
        &&& self.event is None
        &&& self.global_team is None
        &&& self.id is None
        &&& self.images is None
        &&& self.members is None
        &&& self.name is None
    }

    /// Whether `other` holds the same values as `self`, field by field and
    /// through every record and list below it.
    pub open spec fn same(&self, other: &GGEventTeam) -> bool
        decreases self,
    {
        &&& self.discriminator == other.discriminator
        &&& match (self.entrant, other.entrant) {
            (Some(a), Some(b)) => a.same(&b),
            (None, None) => true,
            _ => false,
        }
        &&& match (self.event, other.event) {
            (Some(a), Some(b)) => a.same(&b),
            (None, None) => true,
            _ => false,
        }
        &&& match (self.global_team, other.global_team) {
            (Some(a), Some(b)) => a.same(&b),
            (None, None) => true,
            _ => false,
        }
        &&& self.id == other.id
        &&& match (self.images, other.images) {
            (Some(a), Some(b)) => a@.len() == b@.len() && forall|i: int|
                0 <= i < a@.len() ==> (#[trigger] a@[i]).same(&b@[i]),
            (None, None) => true,
            _ => false,
        }
        &&& match (self.members, other.members) {
            (Some(a), Some(b)) => a@.len() == b@.len() && forall|i: int|
                0 <= i < a@.len() ==> (#[trigger] a@[i]).same(&b@[i]),
            (None, None) => true,
            _ => false,
        }
        &&& self.name == other.name
    }

    /// Returns a copy of the record.
    pub fn copy(&self) -> (r: GGEventTeam)
        ensures
            self.same(&r),
        decreases self,
    {
        GGEventTeam {
            discriminator: self.discriminator.clone(),
            entrant: match &self.entrant {
                Some(b) => Some(Box::new(b.copy())),
                None => None,
            },
            event: match &self.event {
                Some(b) => Some(Box::new(b.copy())),
                None => None,
            },
            global_team: match &self.global_team {
                Some(b) => Some(Box::new(b.copy())),
                None => None,
            },
            id: self.id,
            images: match &self.images {
                Some(v) => Some(GGImage::copy_all(v)),
                None => None,
            },
            members: match &self.members {
                Some(v) => Some(GGTeamMember::copy_all(v)),
                None => None,
            },
            name: self.name.clone(),
        }
    }

    /// Returns a copy of each record of a list, in order.
    pub fn copy_all(v: &Vec<GGEventTeam>) -> (r: Vec<GGEventTeam>)
        ensures
            r@.len() == v@.len(),
            forall|i: int| 0 <= i < v@.len() ==> v@[i].same(&(#[trigger] r@[i])),
        decreases v,
    {
        let mut r: Vec<GGEventTeam> = Vec::new();
        let mut i: usize = 0;
        while i < v.len()
            invariant
                i <= v@.len(),
                r@.len() == i,
                forall|k: int| 0 <= k < i ==> v@[k].same(&(#[trigger] r@[k])),
            decreases v@.len() - i,
        {
            proof {
                assert(decreases_to!(v => v[i as int]));
            }
            r.push(v[i].copy());
            i = i + 1;
        }
        r
    }

    /// Returns the discriminator of the event team.
    ///
    /// Returns an empty string if not set or wasn't queried.
    pub fn discriminator(&self) -> (r: String)
        ensures
            r@ == text_or_empty(self.discriminator),
    {
        text_field(&self.discriminator)
    }

    /// Returns the entrant of the event team.
    ///
    /// Returns an empty user if not set or wasn't queried.
    pub fn entrant(&self) -> (r: GGEntrant)
        ensures
            match self.entrant {
                Some(c) => c.same(&r),
                None => r.is_blank(),
            },
    {
        match &self.entrant {
            Some(c) => c.copy(),
            None => GGEntrant::default(),
        }
    }

    /// Returns the event of the event team.
    ///
    /// Returns an empty user if not set or wasn't queried.
    pub fn event(&self) -> (r: GGEvent)
        ensures
            match self.event {
                Some(c) => c.same(&r),
                None => r.is_blank(),
            },
    {
        match &self.event {
            Some(c) => c.copy(),
            None => GGEvent::default(),
        }
    }

    /// Returns the global team of the event team.
    ///
    /// Returns an empty user if not set or wasn't queried.
    pub fn global_team(&self) -> (r: GGGlobalTeam)
        ensures
            match self.global_team {
                Some(c) => c.same(&r),
                None => r.is_blank(),
            },
    {
        match &self.global_team {
            Some(c) => c.copy(),
            None => GGGlobalTeam::default(),
        }
    }

    /// Returns the id of the event team.
    ///
    /// Returns zero if not set or wasn't queried.
    pub fn id(&self) -> (r: i64)
        ensures
            r == int_or_zero(self.id),
    {
        int_field(self.id)
    }

    /// Returns the images of the event team.
    ///
    /// Returns an empty vector if not set or wasn't queried.
    pub fn images(&self) -> (r: Vec<GGImage>)
        ensures
            match self.images {
                Some(v) => {
                    &&& r@.len() == v@.len()
                    &&& forall|i: int| 0 <= i < v@.len() ==> v@[i].same(&(#[trigger] r@[i]))
                },
                None => r@.len() == 0,
            },
    {
        match &self.images {
            Some(v) => GGImage::copy_all(v),
            None => Vec::new(),
        }
    }

    /// Returns the members in the event team.
    ///
    /// Returns an empty vector if not set or wasn't queried.
    pub fn members(&self) -> (r: Vec<GGTeamMember>)
        ensures
            match self.members {
                Some(v) => {
                    &&& r@.len() == v@.len()
                    &&& forall|i: int| 0 <= i < v@.len() ==> v@[i].same(&(#[trigger] r@[i]))
                },
                None => r@.len() == 0,
            },
    {
        match &self.members {
            Some(v) => GGTeamMember::copy_all(v),
            None => Vec::new(),
        }
    }

    /// Returns the name of the event team.
    ///
    /// Returns an empty string if not set or wasn't queried.
    pub fn name(&self) -> (r: String)
        ensures
            r@ == text_or_empty(self.name),
    {
        text_field(&self.name)
    }
}

impl Clone for GGEventTeam {
    fn clone(&self) -> (r: GGEventTeam)
        ensures
            self.same(&r),
    {
        self.copy()
    }
}

impl Default for GGEventTeam {
    fn default() -> (r: GGEventTeam)
        ensures
            r.is_blank(),
    {
        GGEventTeam {
            discriminator: None,
            entrant: None,
            event: None,
            global_team: None,
            id: None,
            images: None,
            members: None,
            name: None,
        }
    }
}

} // verus!
