//! start.gg TournamentConnection, start.gg Tournament.

use vstd::prelude::*;

use crate::enums::GGID;
use crate::field::{text_or_empty, text_field, int_or_zero, int_field, flag_or_false, flag_field, id_or_zero, id_field};
use crate::structs::event::GGEvent;
use crate::structs::image::GGImage;
use crate::structs::page_info::GGPageInfo;
use crate::structs::participant::GGParticipant;
use crate::structs::participant::GGParticipants;
use crate::structs::user::GGUser;
use crate::timestamp::GGTimestamp;

verus! {

/// Equivalent for start.gg TournamentConnection.
#[derive(Debug)]
pub struct GGTournamentConnection {
    pub nodes: Vec<GGTournament>,
    pub page_info: Option<Box<GGPageInfo>>,
}

impl GGTournamentConnection {
    /// Whether no field was set, as after a query that requested none.
    pub open spec fn is_blank(&self) -> bool {
        &&& self.nodes@.len() == 0
        &&& self.page_info is None
    }

    /// Whether `other` holds the same values as `self`, field by field and
    /// through every record and list below it.
    pub open spec fn same(&self, other: &GGTournamentConnection) -> bool
        decreases self,
    {
        &&& self.nodes@.len() == other.nodes@.len()
        &&& forall|i: int| 0 <= i < self.nodes@.len() ==> (#[trigger] self.nodes@[i]).same(&other.nodes@[i])
        &&& match (self.page_info, other.page_info) {
            (Some(a), Some(b)) => a.same(&b),
            (None, None) => true,
            _ => false,
        }
    }

    /// Returns a copy of the record.
    pub fn copy(&self) -> (r: GGTournamentConnection)
        ensures
            self.same(&r),
        decreases self,
    {
        GGTournamentConnection {
            nodes: GGTournament::copy_all(&self.nodes),
            page_info: match &self.page_info {
                Some(b) => Some(Box::new(b.copy())),
                None => None,
            },
        }
    }

    /// Returns the page info of the connection.
    ///
    /// Returns empty page info if not set or wasn't queried.
    pub fn page_info(&self) -> (r: GGPageInfo)
        ensures
            match self.page_info {
                Some(c) => c.same(&r),
                None => r.is_blank(),
            },
    {
        match &self.page_info {
            Some(c) => c.copy(),
            None => GGPageInfo::default(),
        }
    }
}

impl Clone for GGTournamentConnection {
    fn clone(&self) -> (r: GGTournamentConnection)
        ensures
            self.same(&r),
    {
        self.copy()
    }
}

impl Default for GGTournamentConnection {
    fn default() -> (r: GGTournamentConnection)
        ensures
            r.is_blank(),
    {
        GGTournamentConnection {
            nodes: Vec::new(),
            page_info: None,
        }
    }
}

/// Equivalent for start.gg Tournament.
///
/// Each element in the structure is optional, allowing a user to only query values they want.
/// Given each is an option and not a requirement, a method is included for each element with the same name.
/// These methods will unwrap and return the proper value without any unwrapping or references needed.
/// Certain methods (see participants()) will return a vector of the data type instead of a connection to a vector, done to simplify the API and make the start.gg api easier to work with.
#[derive(Debug)]
pub struct GGTournament {
    pub addr_state: Option<String>,
    pub admins: Option<Vec<GGUser>>,
    pub city: Option<String>,
    pub country_code: Option<String>,
    pub created_at: Option<i64>,
    pub currency: Option<String>,
    pub end_at: Option<i64>,
    pub event_registration_closes_at: Option<i64>,
    pub events: Option<Vec<GGEvent>>,
    pub has_offline_events: Option<bool>,
    pub has_online_events: Option<bool>,
    pub hashtag: Option<String>,
    pub id: Option<GGID>,
    pub images: Option<Vec<GGImage>>,
    pub is_online: Option<bool>,
    pub is_registration_open: Option<bool>,
    pub maps_place_id: Option<String>,
    pub name: Option<String>,
    pub num_attendees: Option<i64>,
    pub owner: Option<Box<GGUser>>,
    pub participants: Option<GGParticipants>,
    pub postal_code: Option<String>,
    pub primary_contact: Option<String>,
    pub primary_contact_type: Option<String>,
    pub registration_closes_at: Option<i64>,
    pub rules: Option<String>,
    pub short_slug: Option<String>,
    pub slug: Option<String>,
    pub start_at: Option<i64>,
    pub state: Option<i64>,
    pub team_creation_closes_at: Option<i64>,
    pub timezone: Option<String>,
    pub tournament_type: Option<i64>,
    pub updated_at: Option<i64>,
    pub url: Option<String>,
    pub venue_address: Option<String>,
    pub venue_name: Option<String>,
}

impl GGTournament {
    /// Whether no field was set, as after a query that requested none.
    pub open spec fn is_blank(&self) -> bool {
        &&& self.addr_state is None
        &&& self.admins is None
        &&& self.city is None
        &&& self.country_code is None
        &&& self.created_at is None
        &&& self.currency is None
        &&& self.end_at is None
        &&& self.event_registration_closes_at is None
        &&& self.events is None
        &&& self.has_offline_events is None
        &&& self.has_online_events is None
        &&& self.hashtag is None
        &&& self.id is None
        &&& self.images is None
        &&& self.is_online is None
        &&& self.is_registration_open is None
        &&& self.maps_place_id is None
        &&& self.name is None
        &&& self.num_attendees is None
        &&& self.owner is None
        &&& self.participants is None
        &&& self.postal_code is None
        &&& self.primary_contact is None
        &&& self.primary_contact_type is None
        &&& self.registration_closes_at is None
        &&& self.rules is None
        &&& self.short_slug is None
        &&& self.slug is None
        &&& self.start_at is None
        &&& self.state is None
        &&& self.team_creation_closes_at is None
        &&& self.timezone is None
        &&& self.tournament_type is None
        &&& self.updated_at is None
        &&& self.url is None
        &&& self.venue_address is None
        &&& self.venue_name is None
    }

    /// Whether `other` holds the same values as `self`, field by field and
    /// through every record and list below it.
    pub open spec fn same(&self, other: &GGTournament) -> bool
        decreases self,
    {
        &&& self.addr_state == other.addr_state
        &&& match (self.admins, other.admins) {
            (Some(a), Some(b)) => a@.len() == b@.len() && forall|i: int|
                0 <= i < a@.len() ==> (#[trigger] a@[i]).same(&b@[i]),
            (None, None) => true,
            _ => false,
        }
        &&& self.city == other.city
        &&& self.country_code == other.country_code
        &&& self.created_at == other.created_at
        &&& self.currency == other.currency
        &&& self.end_at == other.end_at
        &&& self.event_registration_closes_at == other.event_registration_closes_at
        &&& match (self.events, other.events) {
            (Some(a), Some(b)) => a@.len() == b@.len() && forall|i: int|
                0 <= i < a@.len() ==> (#[trigger] a@[i]).same(&b@[i]),
            (None, None) => true,
            _ => false,
        }
        &&& self.has_offline_events == other.has_offline_events
        &&& self.has_online_events == other.has_online_events
        &&& self.hashtag == other.hashtag
        &&& self.id == other.id
        &&& match (self.images, other.images) {
            (Some(a), Some(b)) => a@.len() == b@.len() && forall|i: int|
                0 <= i < a@.len() ==> (#[trigger] a@[i]).same(&b@[i]),
            (None, None) => true,
            _ => false,
        }
        &&& self.is_online == other.is_online
        &&& self.is_registration_open == other.is_registration_open
        &&& self.maps_place_id == other.maps_place_id
        &&& self.name == other.name
        &&& self.num_attendees == other.num_attendees
        &&& match (self.owner, other.owner) {
            (Some(a), Some(b)) => a.same(&b),
            (None, None) => true,
            _ => false,
        }
        &&& match (self.participants, other.participants) {
            (Some(a), Some(b)) => a.same(&b),
            (None, None) => true,
            _ => false,
        }
        &&& self.postal_code == other.postal_code
        &&& self.primary_contact == other.primary_contact
        &&& self.primary_contact_type == other.primary_contact_type
        &&& self.registration_closes_at == other.registration_closes_at
        &&& self.rules == other.rules
        &&& self.short_slug == other.short_slug
        &&& self.slug == other.slug
        &&& self.start_at == other.start_at
        &&& self.state == other.state
        &&& self.team_creation_closes_at == other.team_creation_closes_at
        &&& self.timezone == other.timezone
        &&& self.tournament_type == other.tournament_type
        &&& self.updated_at == other.updated_at
        &&& self.url == other.url
        &&& self.venue_address == other.venue_address
        &&& self.venue_name == other.venue_name
    }

    /// Returns a copy of the record.
    pub fn copy(&self) -> (r: GGTournament)
        ensures
            self.same(&r),
        decreases self,
    {
        GGTournament {
            addr_state: self.addr_state.clone(),
            admins: match &self.admins {
                Some(v) => Some(GGUser::copy_all(v)),
                None => None,
            },
            city: self.city.clone(),
            country_code: self.country_code.clone(),
            created_at: self.created_at,
            currency: self.currency.clone(),
            end_at: self.end_at,
            event_registration_closes_at: self.event_registration_closes_at,
            events: match &self.events {
                Some(v) => Some(GGEvent::copy_all(v)),
                None => None,
            },
            has_offline_events: self.has_offline_events,
            has_online_events: self.has_online_events,
            hashtag: self.hashtag.clone(),
            id: self.id.clone(),
            images: match &self.images {
                Some(v) => Some(GGImage::copy_all(v)),
                None => None,
            },
            is_online: self.is_online,
            is_registration_open: self.is_registration_open,
            maps_place_id: self.maps_place_id.clone(),
            name: self.name.clone(),
            num_attendees: self.num_attendees,
            owner: match &self.owner {
                Some(b) => Some(Box::new(b.copy())),
                None => None,
            },
            participants: match &self.participants {
                Some(c) => Some(c.copy()),
                None => None,
            },
            postal_code: self.postal_code.clone(),
            primary_contact: self.primary_contact.clone(),
            primary_contact_type: self.primary_contact_type.clone(),
            registration_closes_at: self.registration_closes_at,
            rules: self.rules.clone(),
            short_slug: self.short_slug.clone(),
            slug: self.slug.clone(),
            start_at: self.start_at,
            state: self.state,
            team_creation_closes_at: self.team_creation_closes_at,
            timezone: self.timezone.clone(),
            tournament_type: self.tournament_type,
            updated_at: self.updated_at,
            url: self.url.clone(),
            venue_address: self.venue_address.clone(),
            venue_name: self.venue_name.clone(),
        }
    }

    /// Returns a copy of each record of a list, in order.
    pub fn copy_all(v: &Vec<GGTournament>) -> (r: Vec<GGTournament>)
        ensures
            r@.len() == v@.len(),
            forall|i: int| 0 <= i < v@.len() ==> v@[i].same(&(#[trigger] r@[i])),
        decreases v,
    {
        let mut r: Vec<GGTournament> = Vec::new();
        let mut i: usize = 0;
        while i < v.len()
            invariant
                i <= v@.len(),
                r@.len() == i,
                forall|k: int| 0 <= k < i ==> v@[k].same(&(#[trigger] r@[k])),
            decreases v@.len() - i,
        {
            proof {
                assert(decreases_to!(v => v[i as int]));
            }
            r.push(v[i].copy());
            i = i + 1;
        }
        r
    }

    /// Returns the state address of the tournament.
    ///
    /// Returns an empty string if not set or wasn't queried.
    pub fn addr_state(&self) -> (r: String)
        ensures
            r@ == text_or_empty(self.addr_state),
    {
        text_field(&self.addr_state)
    }

    /// Returns the admins of the tournament.
    ///
    /// Returns an empty vector if not set or wasn't queried.
    pub fn admins(&self) -> (r: Vec<GGUser>)
        ensures
            match self.admins {
                Some(v) => {
                    &&& r@.len() == v@.len()
                    &&& forall|i: int| 0 <= i < v@.len() ==> v@[i].same(&(#[trigger] r@[i]))
                },
                None => r@.len() == 0,
            },
    {
        match &self.admins {
            Some(v) => GGUser::copy_all(v),
            None => Vec::new(),
        }
    }

    /// Returns the city of the tournament.
    ///
    /// Returns an empty string if not set or wasn't queried.
    pub fn city(&self) -> (r: String)
        ensures
            r@ == text_or_empty(self.city),
    {
        text_field(&self.city)
    }

    /// Returns the country code of the tournament.
    ///
    /// Returns an empty string if not set or wasn't queried.
    pub fn country_code(&self) -> (r: String)
        ensures
            r@ == text_or_empty(self.country_code),
    {
        text_field(&self.country_code)
    }

    /// Returns the time the tournament was created.
    ///
    /// Returns zero if not set or wasn't queried.
    pub fn created_at(&self) -> (r: GGTimestamp)
        ensures
            r.seconds == int_or_zero(self.created_at),
    {
        GGTimestamp { seconds: int_field(self.created_at) }
    }

    /// Returns the currency of the tournament.
    ///
    /// Returns an empty string if not set or wasn't queried.
    pub fn currency(&self) -> (r: String)
        ensures
            r@ == text_or_empty(self.currency),
    {
        text_field(&self.currency)
    }

    /// Returns the end time of the tournament.
    ///
    /// Returns zero if not set or wasn't queried.
    pub fn end_at(&self) -> (r: GGTimestamp)
        ensures
            r.seconds == int_or_zero(self.end_at),
    {
        GGTimestamp { seconds: int_field(self.end_at) }
    }

    /// Returns the event registration end time of the tournament.
    ///
    /// Returns zero if not set or wasn't queried.
    pub fn event_registration_closes_at(&self) -> (r: GGTimestamp)
        ensures
            r.seconds == int_or_zero(self.event_registration_closes_at),
    {
        GGTimestamp { seconds: int_field(self.event_registration_closes_at) }
    }

    /// Returns the events in the tournament.
    ///
    /// Returns an empty vector if not set or wasn't queried.
    pub fn events(&self) -> (r: Vec<GGEvent>)
        ensures
            match self.events {
                Some(v) => {
                    &&& r@.len() == v@.len()
                    &&& forall|i: int| 0 <= i < v@.len() ==> v@[i].same(&(#[trigger] r@[i]))
                },
                None => r@.len() == 0,
            },
    {
        match &self.events {
            Some(v) => GGEvent::copy_all(v),
            None => Vec::new(),
        }
    }

    /// Returns if the tournament has offline events.
    ///
    /// Returns false if not set or wasn't queried.
    pub fn has_offline_events(&self) -> (r: bool)
        ensures
            r == flag_or_false(self.has_offline_events),
    {
        flag_field(self.has_offline_events)
    }

    /// Returns if the tournament has online events.
    ///
    /// Returns false if not set or wasn't queried.
    pub fn has_online_events(&self) -> (r: bool)
        ensures
            r == flag_or_false(self.has_online_events),
    {
        flag_field(self.has_online_events)
    }

    /// Returns the hashtag of the tournament.
    ///
    /// Returns an empty string if not set or wasn't queried.
    pub fn hashtag(&self) -> (r: String)
        ensures
            r@ == text_or_empty(self.hashtag),
    {
        text_field(&self.hashtag)
    }

    /// Returns the id of the tournament.
    ///
    /// Returns zero if not set or wasn't queried.
    pub fn id(&self) -> (r: GGID)
        ensures
            r@ == id_or_zero(self.id),
    {
        id_field(&self.id)
    }

    /// Returns the images of the tournament.
    ///
    /// Returns an empty vector if not set or wasn't queried.
    pub fn images(&self) -> (r: Vec<GGImage>)
        ensures
            match self.images {
                Some(v) => {
                    &&& r@.len() == v@.len()
                    &&& forall|i: int| 0 <= i < v@.len() ==> v@[i].same(&(#[trigger] r@[i]))
                },
                None => r@.len() == 0,
            },
    {
        match &self.images {
            Some(v) => GGImage::copy_all(v),
            None => Vec::new(),
        }
    }

    /// Returns if the tournament is online.
    ///
    /// Returns false if not set or wasn't queried.
    pub fn is_online(&self) -> (r: bool)
        ensures
            r == flag_or_false(self.is_online),
    {
        flag_field(self.is_online)
    }

    /// Returns if the tournament registration is open.
    ///
    /// Returns false if not set or wasn't queried.
    pub fn is_registration_open(&self) -> (r: bool)
        ensures
            r == flag_or_false(self.is_registration_open),
    {
        flag_field(self.is_registration_open)
    }

    /// Returns the maps place id of the tournament.
    ///
    /// Returns an empty string if not set or wasn't queried.
    pub fn maps_place_id(&self) -> (r: String)
        ensures
            r@ == text_or_empty(self.maps_place_id),
    {
        text_field(&self.maps_place_id)
    }

    /// Returns the name of the tournament.
    ///
    /// Returns an empty string if not set or wasn't queried.
    pub fn name(&self) -> (r: String)
        ensures
            r@ == text_or_empty(self.name),
    {
        text_field(&self.name)
    }

    /// Returns the number of attendees at the tournament.
    ///
    /// Returns zero if not set or wasn't queried.
    pub fn num_attendees(&self) -> (r: i64)
        ensures
            r == int_or_zero(self.num_attendees),
    {
        int_field(self.num_attendees)
    }

    /// Returns the owner of the tournament.
    ///
    /// Returns an empty user if not set or wasn't queried.
    pub fn owner(&self) -> (r: GGUser)
        ensures
            match self.owner {
                Some(c) => c.same(&r),
                None => r.is_blank(),
            },
    {
        match &self.owner {
            Some(c) => c.copy(),
            None => GGUser::default(),
        }
    }

    /// Returns the participants in the tournament.
    ///
    /// Returns an empty vector if not set or wasn't queried.
    pub fn participants(&self) -> (r: Vec<GGParticipant>)
        ensures
            match self.participants {
                Some(c) => {
                    &&& r@.len() == c.nodes@.len()
                    &&& forall|i: int| 0 <= i < c.nodes@.len() ==> c.nodes@[i].same(&(#[trigger] r@[i]))
                },
                None => r@.len() == 0,
            },
    {
        match &self.participants {
            Some(c) => GGParticipant::copy_all(&c.nodes),
            None => Vec::new(),
        }
    }

    /// Returns the postal code of the tournament.
    ///
    /// Returns an empty string if not set or wasn't queried.
    pub fn postal_code(&self) -> (r: String)
        ensures
            r@ == text_or_empty(self.postal_code),
    {
        text_field(&self.postal_code)
    }

    /// Returns the primary contact of the tournament.
    ///
    /// Returns an empty string if not set or wasn't queried.
    pub fn primary_contact(&self) -> (r: String)
        ensures
            r@ == text_or_empty(self.primary_contact),
    {
        text_field(&self.primary_contact)
    }

    /// Returns the primary contact type of the tournament.
    ///
    /// Returns an empty string if not set or wasn't queried.
    pub fn primary_contact_type(&self) -> (r: String)
        ensures
            r@ == text_or_empty(self.primary_contact_type),
    {
        text_field(&self.primary_contact_type)
    }

    /// Returns the registration close date of the tournament.
    ///
    /// Returns zero if not set or wasn't queried.
    pub fn registration_closes_at(&self) -> (r: GGTimestamp)
        ensures
            r.seconds == int_or_zero(self.registration_closes_at),
    {
        GGTimestamp { seconds: int_field(self.registration_closes_at) }
    }

    /// Returns the rules of the tournament.
    ///
    /// Returns an empty string if not set or wasn't queried.
    pub fn rules(&self) -> (r: String)
        ensures
            r@ == text_or_empty(self.rules),
    {
        text_field(&self.rules)
    }

    /// Returns the short slug of the tournament.
    ///
    /// Returns an empty string if not set or wasn't queried.
    pub fn short_slug(&self) -> (r: String)
        ensures
            r@ == text_or_empty(self.short_slug),
    {
        text_field(&self.short_slug)
    }

    /// Returns the slug of the tournament.
    ///
    /// Returns an empty string if not set or wasn't queried.
    pub fn slug(&self) -> (r: String)
        ensures
            r@ == text_or_empty(self.slug),
    {
        text_field(&self.slug)
    }

    /// Returns the start time of the tournament.
    ///
    /// Returns zero if not set or wasn't queried.
    pub fn start_at(&self) -> (r: GGTimestamp)
        ensures
            r.seconds == int_or_zero(self.start_at),
    {
        GGTimestamp { seconds: int_field(self.start_at) }
    }

    /// Returns the state of the tournament.
    ///
    /// Returns zero if not set or wasn't queried.
    pub fn state(&self) -> (r: i64)
        ensures
            r == int_or_zero(self.state),
    {
        int_field(self.state)
    }

    /// Returns the team creation end date of the tournament.
    ///
    /// Returns zero if not set or wasn't queried.
    pub fn team_creation_closes_at(&self) -> (r: GGTimestamp)
        ensures
            r.seconds == int_or_zero(self.team_creation_closes_at),
    {
        GGTimestamp { seconds: int_field(self.team_creation_closes_at) }
    }

    /// Returns the timezone of the tournament.
    ///
    /// Returns an empty string if not set or wasn't queried.
    pub fn timezone(&self) -> (r: String)
        ensures
            r@ == text_or_empty(self.timezone),
    {
        text_field(&self.timezone)
    }

    /// Returns the type of the tournament.
    ///
    /// Returns zero if not set or wasn't queried.
    pub fn tournament_type(&self) -> (r: i64)
        ensures
            r == int_or_zero(self.tournament_type),
    {
        int_field(self.tournament_type)
    }

    /// Returns the time the tournament was last updated.
    ///
    /// Returns zero if not set or wasn't queried.
    pub fn updated_at(&self) -> (r: GGTimestamp)
        ensures
            r.seconds == int_or_zero(self.updated_at),
    {
        GGTimestamp { seconds: int_field(self.updated_at) }
    }

    /// Returns the url of the tournament.
    ///
    /// Returns an empty string if not set or wasn't queried.
    pub fn url(&self) -> (r: String)
        ensures
            r@ == text_or_empty(self.url),
    {
        text_field(&self.url)
    }

    /// Returns the venue address of the tournament.
    ///
    /// Returns an empty string if not set or wasn't queried.
    pub fn venue_address(&self) -> (r: String)
        ensures
            r@ == text_or_empty(self.venue_address),
    {
        text_field(&self.venue_address)
    }

    /// Returns the venue name of the tournament.
    ///
    /// Returns an empty string if not set or wasn't queried.
    pub fn venue_name(&self) -> (r: String)
        ensures
            r@ == text_or_empty(self.venue_name),
    {
        text_field(&self.venue_name)
    }
}

impl Clone for GGTournament {
    fn clone(&self) -> (r: GGTournament)
        ensures
            self.same(&r),
    {
        self.copy()
    }
}

impl Default for GGTournament {
    fn default() -> (r: GGTournament)
        ensures
            r.is_blank(),
    {
        GGTournament {
            addr_state: None,
            admins: None,
            city: None,
            country_code: None,
            created_at: None,
            currency: None,
            end_at: None,
            event_registration_closes_at: None,
            events: None,
            has_offline_events: None,
            has_online_events: None,
            hashtag: None,
            id: None,
            images: None,
            is_online: None,
            is_registration_open: None,
            maps_place_id: None,
            name: None,
            num_attendees: None,
            owner: None,
            participants: None,
            postal_code: None,
            primary_contact: None,
            primary_contact_type: None,
            registration_closes_at: None,
            rules: None,
            short_slug: None,
            slug: None,
            start_at: None,
            state: None,
            team_creation_closes_at: None,
            timezone: None,
            tournament_type: None,
            updated_at: None,
            url: None,
            venue_address: None,
            venue_name: None,
        }
    }
}

} // verus!
