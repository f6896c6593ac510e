//! start.gg User.

use vstd::prelude::*;

use crate::field::{text_or_empty, text_field, int_or_zero, int_field};
use crate::structs::event::GGEvent;
use crate::structs::event::GGEvents;
use crate::structs::player::GGPlayer;
use crate::structs::tournament::GGTournament;
use crate::structs::tournament::GGTournamentConnection;

verus! {

/// Equivalent for start.gg User.
///
/// Each element in the structure is optional, allowing a user to only query values they want.
/// Given each is an option and not a requirement, a method is included for each element with the same name.
/// These methods will unwrap and return the proper value without any unwrapping or references needed.
/// Certain methods (see tournaments()) will return a vector of the data type instead of a connection to a vector, done to simplify the API and make the start.gg api easier to work with.
#[derive(Debug)]
pub struct GGUser {
    pub bio: Option<String>,
    pub birthday: Option<String>,
    pub discriminator: Option<String>,
    pub email: Option<String>,
    pub events: Option<GGEvents>,
    pub gender_pronoun: Option<String>,
    pub id: Option<i64>,
    pub name: Option<String>,
    pub player: Option<Box<GGPlayer>>,
    pub slug: Option<String>,
    pub tournaments: Option<GGTournamentConnection>,
}

impl GGUser {
    /// Whether no field was set, as after a query that requested none.
    pub open spec fn is_blank(&self) -> bool {
        &&& self.bio is None
        &&& self.birthday is None
        &&& self.discriminator is None
        &&& self.email is None
        &&& self.events is None
        &&& self.gender_pronoun is None
        &&& self.id is None
        &&& self.name is None
        &&& self.player is None
        &&& self.slug is None
        &&& self.tournaments is None
    }

    /// Whether `other` holds the same values as `self`, field by field and
    /// through every record and list below it.
    pub open spec fn same(&self, other: &GGUser) -> bool
        decreases self,
    {
        &&& self.bio == other.bio
        &&& self.birthday == other.birthday
        &&& self.discriminator == other.discriminator
        &&& self.email == other.email
        &&& match (self.events, other.events) {
            (Some(a), Some(b)) => a.same(&b),
            (None, None) => true,
            _ => false,
        }
        &&& self.gender_pronoun == other.gender_pronoun
        &&& self.id == other.id
        &&& self.name == other.name
        &&& match (self.player, other.player) {
            (Some(a), Some(b)) => a.same(&b),
            (None, None) => true,
            _ => false,
        }
        &&& self.slug == other.slug
        &&& match (self.tournaments, other.tournaments) {
            (Some(a), Some(b)) => a.same(&b),
            (None, None) => true,
            _ => false,
        }
    }

    /// Returns a copy of the record.
    pub fn copy(&self) -> (r: GGUser)
        ensures
            self.same(&r),
        decreases self,
    {
        GGUser {
            bio: self.bio.clone(),
            birthday: self.birthday.clone(),
            discriminator: self.discriminator.clone(),
            email: self.email.clone(),
            events: match &self.events {
                Some(c) => Some(c.copy()),
                None => None,
            },
            gender_pronoun: self.gender_pronoun.clone(),
            id: self.id,
            name: self.name.clone(),
            player: match &self.player {
                Some(b) => Some(Box::new(b.copy())),
                None => None,
            },
            slug: self.slug.clone(),
            tournaments: match &self.tournaments {
                Some(c) => Some(c.copy()),
                None => None,
            },
        }
    }

    /// Returns a copy of each record of a list, in order.
    pub fn copy_all(v: &Vec<GGUser>) -> (r: Vec<GGUser>)
        ensures
            r@.len() == v@.len(),
            forall|i: int| 0 <= i < v@.len() ==> v@[i].same(&(#[trigger] r@[i])),
        decreases v,
    {
        let mut r: Vec<GGUser> = Vec::new();
        let mut i: usize = 0;
        while i < v.len()
            invariant
                i <= v@.len(),
                r@.len() == i,
                forall|k: int| 0 <= k < i ==> v@[k].same(&(#[trigger] r@[k])),
            decreases v@.len() - i,
        {
            proof {
                assert(decreases_to!(v => v[i as int]));
            }
            r.push(v[i].copy());
            i = i + 1;
        }
        r
    }

    /// Returns the bio of the user.
    ///
    /// Returns an empty string if not set or wasn't queried.
    pub fn bio(&self) -> (r: String)
        ensures
            r@ == text_or_empty(self.bio),
    {
        text_field(&self.bio)
    }

    /// Returns the birthday of the user.
    ///
    /// Returns an empty string if not set or wasn't queried.
    pub fn birthday(&self) -> (r: String)
        ensures
            r@ == text_or_empty(self.birthday),
    {
        text_field(&self.birthday)
    }

    /// Returns the discriminator of the user.
    ///
    /// Returns an empty string if not set or wasn't queried.
    pub fn discriminator(&self) -> (r: String)
        ensures
            r@ == text_or_empty(self.discriminator),
    {
        text_field(&self.discriminator)
    }

    /// Returns the email of the user.
    ///
    /// Returns an empty string if not set or wasn't queried.
    pub fn email(&self) -> (r: String)
        ensures
            r@ == text_or_empty(self.email),
    {
        text_field(&self.email)
    }

    /// Returns the events the user has competed in.
    ///
    /// Returns an empty vector if not set or wasn't queried.
    pub fn events(&self) -> (r: Vec<GGEvent>)
        ensures
            match self.events {
                Some(c) => {
                    &&& r@.len() == c.nodes@.len()
                    &&& forall|i: int| 0 <= i < c.nodes@.len() ==> c.nodes@[i].same(&(#[trigger] r@[i]))
                },
                None => r@.len() == 0,
            },
    {
        match &self.events {
            Some(c) => GGEvent::copy_all(&c.nodes),
            None => Vec::new(),
        }
    }

    /// Returns the gender pronoun of the user.
    ///
    /// Returns an empty string if not set or wasn't queried.
    pub fn gender_pronoun(&self) -> (r: String)
        ensures
            r@ == text_or_empty(self.gender_pronoun),
    {
        text_field(&self.gender_pronoun)
    }

    /// Returns the id of the user.
    ///
    /// Returns zero if not set or wasn't queried.
    pub fn id(&self) -> (r: i64)
        ensures
            r == int_or_zero(self.id),
    {
        int_field(self.id)
    }

    /// Returns the name of the user.
    ///
    /// Returns an empty string if not set or wasn't queried.
    pub fn name(&self) -> (r: String)
        ensures
            r@ == text_or_empty(self.name),
    {
        text_field(&self.name)
    }

    /// Returns the player of the user.
    ///
    /// Returns an empty player if not set or wasn't queried.
    pub fn player(&self) -> (r: GGPlayer)
        ensures
            match self.player {
                Some(c) => c.same(&r),
                None => r.is_blank(),
            },
    {
        match &self.player {
            Some(c) => c.copy(),
            None => GGPlayer::default(),
        }
    }

    /// Returns the slug of the user.
    ///
    /// Returns an empty string if not set or wasn't queried.
    pub fn slug(&self) -> (r: String)
        ensures
            r@ == text_or_empty(self.slug),
    {
        text_field(&self.slug)
    }

    /// Returns the tournaments the user has competed in.
    ///
    /// Returns an empty vector if not set or wasn't queried.
    pub fn tournaments(&self) -> (r: Vec<GGTournament>)
        ensures
            match self.tournaments {
                Some(c) => {
                    &&& r@.len() == c.nodes@.len()
                    &&& forall|i: int| 0 <= i < c.nodes@.len() ==> c.nodes@[i].same(&(#[trigger] r@[i]))
                },
                None => r@.len() == 0,
            },
    {
        match &self.tournaments {
            Some(c) => GGTournament::copy_all(&c.nodes),
            None => Vec::new(),
        }
    }
}

impl Clone for GGUser {
    fn clone(&self) -> (r: GGUser)
        ensures
            self.same(&r),
    {
        self.copy()
    }
}

impl Default for GGUser {
    fn default() -> (r: GGUser)
        ensures
            r.is_blank(),
    {
        GGUser {
            bio: None,
            birthday: None,
            discriminator: None,
            email: None,
            events: None,
            gender_pronoun: None,
            id: None,
            name: None,
            player: None,
            slug: None,
            tournaments: None,
        }
    }
}

} // verus!
