//! start.gg VideogameConnection, start.gg Videogame.

use vstd::prelude::*;

use crate::field::{text_or_empty, text_field, int_or_zero, int_field};
use crate::structs::character::GGCharacter;
use crate::structs::image::GGImage;
use crate::structs::page_info::GGPageInfo;

verus! {

/// Equivalent for start.gg VideogameConnection.
#[derive(Debug)]
pub struct GGVideogameConnection {
    pub nodes: Vec<GGVideogame>,
    pub page_info: Option<Box<GGPageInfo>>,
}

impl GGVideogameConnection {
    /// Whether no field was set, as after a query that requested none.
    pub open spec fn is_blank(&self) -> bool {
        &&& self.nodes@.len() == 0
        &&& self.page_info is None
    }

    /// Whether `other` holds the same values as `self`, field by field and
    /// through every record and list below it.
    pub open spec fn same(&self, other: &GGVideogameConnection) -> bool
        decreases self,
    {
        &&& self.nodes@.len() == other.nodes@.len()
        &&& forall|i: int| 0 <= i < self.nodes@.len() ==> (#[trigger] self.nodes@[i]).same(&other.nodes@[i])
        &&& match (self.page_info, other.page_info) {
            (Some(a), Some(b)) => a.same(&b),
            (None, None) => true,
            _ => false,
        }
    }

    /// Returns a copy of the record.
    pub fn copy(&self) -> (r: GGVideogameConnection)
        ensures
            self.same(&r),
        decreases self,
    {
        GGVideogameConnection {
            nodes: GGVideogame::copy_all(&self.nodes),
            page_info: match &self.page_info {
                Some(b) => Some(Box::new(b.copy())),
                None => None,
            },
        }
    }

    /// Returns the page info of the connection.
    ///
    /// Returns empty page info if not set or wasn't queried.
    pub fn page_info(&self) -> (r: GGPageInfo)
        ensures
            match self.page_info {
                Some(c) => c.same(&r),
                None => r.is_blank(),
            },
    {
        match &self.page_info {
            Some(c) => c.copy(),
            None => GGPageInfo::default(),
        }
    }
}

impl Clone for GGVideogameConnection {
    fn clone(&self) -> (r: GGVideogameConnection)
        ensures
            self.same(&r),
    {
        self.copy()
    }
}

impl Default for GGVideogameConnection {
    fn default() -> (r: GGVideogameConnection)
        ensures
            r.is_blank(),
    {
        GGVideogameConnection {
            nodes: Vec::new(),
            page_info: None,
        }
    }
}

/// Equivalent for start.gg Videogame.
///
/// Each element in the structure is optional, allowing a user to only query values they want.
/// Given each is an option and not a requirement, a method is included for each element with the same name.
/// These methods will unwrap and return the proper value without any unwrapping or references needed.
#[derive(Debug)]
pub struct GGVideogame {
    pub characters: Option<Vec<GGCharacter>>,
    pub display_name: Option<String>,
    pub id: Option<i64>,
    pub images: Option<Vec<GGImage>>,
    pub name: Option<String>,
    pub slug: Option<String>,
}

impl GGVideogame {
    /// Whether no field was set, as after a query that requested none.
    pub open spec fn is_blank(&self) -> bool {
        &&& self.characters is None
        &&& self.display_name is None
        &&& self.id is None
        &&& self.images is None
        &&& self.name is None
        &&& self.slug is None
    }

    /// Whether `other` holds the same values as `self`, field by field and
    /// through every record and list below it.
    pub open spec fn same(&self, other: &GGVideogame) -> bool
        decreases self,
    {
        &&& match (self.characters, other.characters) {
            (Some(a), Some(b)) => a@.len() == b@.len() && forall|i: int|
                0 <= i < a@.len() ==> (#[trigger] a@[i]).same(&b@[i]),
            (None, None) => true,
            _ => false,
        }
        &&& self.display_name == other.display_name
        &&& self.id == other.id
        &&& match (self.images, other.images) {
            (Some(a), Some(b)) => a@.len() == b@.len() && forall|i: int|
                0 <= i < a@.len() ==> (#[trigger] a@[i]).same(&b@[i]),
            (None, None) => true,
            _ => false,
        }
        &&& self.name == other.name
        &&& self.slug == other.slug
    }

    /// Returns a copy of the record.
    pub fn copy(&self) -> (r: GGVideogame)
        ensures
            self.same(&r),
        decreases self,
    {
        GGVideogame {
            characters: match &self.characters {
                Some(v) => Some(GGCharacter::copy_all(v)),
                None => None,
            },
            display_name: self.display_name.clone(),
            id: self.id,
            images: match &self.images {
                Some(v) => Some(GGImage::copy_all(v)),
                None => None,
            },
            name: self.name.clone(),
            slug: self.slug.clone(),
        }
    }

    /// Returns a copy of each record of a list, in order.
    pub fn copy_all(v: &Vec<GGVideogame>) -> (r: Vec<GGVideogame>)
        ensures
            r@.len() == v@.len(),
            forall|i: int| 0 <= i < v@.len() ==> v@[i].same(&(#[trigger] r@[i])),
        decreases v,
    {
        let mut r: Vec<GGVideogame> = Vec::new();
        let mut i: usize = 0;
        while i < v.len()
            invariant
                i <= v@.len(),
                r@.len() == i,
                forall|k: int| 0 <= k < i ==> v@[k].same(&(#[trigger] r@[k])),
            decreases v@.len() - i,
        {
            proof {
                assert(decreases_to!(v => v[i as int]));
            }
            r.push(v[i].copy());
            i = i + 1;
        }
        r
    }

    /// Returns the characters for the videogame.
    ///
    /// Returns an empty vector if not set or wasn't queried.
    pub fn characters(&self) -> (r: Vec<GGCharacter>)
        ensures
            match self.characters {
                Some(v) => {
                    &&& r@.len() == v@.len()
                    &&& forall|i: int| 0 <= i < v@.len() ==> v@[i].same(&(#[trigger] r@[i]))
                },
                None => r@.len() == 0,
            },
    {
        match &self.characters {
            Some(v) => GGCharacter::copy_all(v),
            None => Vec::new(),
        }
    }

    /// Returns the display name of the videogame.
    ///
    /// Returns an empty string if not set or wasn't queried.
    pub fn display_name(&self) -> (r: String)
        ensures
            r@ == text_or_empty(self.display_name),
    {
        text_field(&self.display_name)
    }

    /// Returns the id of the videogame.
    ///
    /// Returns zero if not set or wasn't queried.
    pub fn id(&self) -> (r: i64)
        ensures
            r == int_or_zero(self.id),
    {
        int_field(self.id)
    }

    /// Returns the images for the videogame.
    ///
    /// Returns an empty vector if not set or wasn't queried.
    pub fn images(&self) -> (r: Vec<GGImage>)
        ensures
            match self.images {
                Some(v) => {
                    &&& r@.len() == v@.len()
                    &&& forall|i: int| 0 <= i < v@.len() ==> v@[i].same(&(#[trigger] r@[i]))
                },
                None => r@.len() == 0,
            },
    {
        match &self.images {
            Some(v) => GGImage::copy_all(v),
            None => Vec::new(),
        }
    }

    /// Returns the name of the videogame.
    ///
    /// Returns an empty string if not set or wasn't queried.
    pub fn name(&self) -> (r: String)
        ensures
            r@ == text_or_empty(self.name),
    {
        text_field(&self.name)
    }

    /// Returns the slug of the videogame.
    ///
    /// Returns an empty string if not set or wasn't queried.
    pub fn slug(&self) -> (r: String)
        ensures
            r@ == text_or_empty(self.slug),
    {
        text_field(&self.slug)
    }
}

impl Clone for GGVideogame {
    fn clone(&self) -> (r: GGVideogame)
        ensures
            self.same(&r),
    {
        self.copy()
    }
}

impl Default for GGVideogame {
    fn default() -> (r: GGVideogame)
        ensures
            r.is_blank(),
    {
        GGVideogame {
            characters: None,
            display_name: None,
            id: None,
            images: None,
            name: None,
            slug: None,
        }
    }
}

} // verus!
