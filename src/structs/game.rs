//! start.gg Game.

use vstd::prelude::*;

use crate::field::{int_or_zero, int_field};
use crate::structs::game_selection::GGGameSelection;
use crate::structs::image::GGImage;
use crate::structs::stage::GGStage;

verus! {

/// Equivalent for start.gg Game.
///
/// Each element in the structure is optional, allowing a user to only query values they want.
/// Given each is an option and not a requirement, a method is included for each element with the same name.
/// These methods will unwrap and return the proper value without any unwrapping or references needed.
#[derive(Debug)]
pub struct GGGame {
    pub id: Option<i64>,
    pub images: Option<Vec<GGImage>>,
    pub order_num: Option<i64>,
    pub selections: Option<Vec<GGGameSelection>>,
    pub stage: Option<Box<GGStage>>,
    pub state: Option<i64>,
    pub winner_id: Option<i64>,
}

impl GGGame {
    /// Whether no field was set, as after a query that requested none.
    pub open spec fn is_blank(&self) -> bool {
        &&& self.id is None
        &&& self.images is None
        &&& self.order_num is None
        &&& self.selections is None
        &&& self.stage is None
        &&& self.state is None
        &&& self.winner_id is None
    }

    /// Whether `other` holds the same values as `self`, field by field and
    /// through every record and list below it.
    pub open spec fn same(&self, other: &GGGame) -> bool
        decreases self,
    {
        &&& self.id == other.id
        &&& match (self.images, other.images) {
            (Some(a), Some(b)) => a@.len() == b@.len() && forall|i: int|
                0 <= i < a@.len() ==> (#[trigger] a@[i]).same(&b@[i]),
            (None, None) => true,
            _ => false,
        }
        &&& self.order_num == other.order_num
        &&& match (self.selections, other.selections) {
            (Some(a), Some(b)) => a@.len() == b@.len() && forall|i: int|
                0 <= i < a@.len() ==> (#[trigger] a@[i]).same(&b@[i]),
            (None, None) => true,
            _ => false,
        }
        &&& match (self.stage, other.stage) {
            (Some(a), Some(b)) => a.same(&b),
            (None, None) => true,
            _ => false,
        }
        &&& self.state == other.state
        &&& self.winner_id == other.winner_id
    }

    /// Returns a copy of the record.
    pub fn copy(&self) -> (r: GGGame)
        ensures
            self.same(&r),
        decreases self,
    {
        GGGame {
            id: self.id,
            images: match &self.images {
                Some(v) => Some(GGImage::copy_all(v)),
                None => None,
            },
            order_num: self.order_num,
            selections: match &self.selections {
                Some(v) => Some(GGGameSelection::copy_all(v)),
                None => None,
            },
            stage: match &self.stage {
                Some(b) => Some(Box::new(b.copy())),
                None => None,
            },
            state: self.state,
            winner_id: self.winner_id,
        }
    }

    /// Returns a copy of each record of a list, in order.
    pub fn copy_all(v: &Vec<GGGame>) -> (r: Vec<GGGame>)
        ensures
            r@.len() == v@.len(),
            forall|i: int| 0 <= i < v@.len() ==> v@[i].same(&(#[trigger] r@[i])),
        decreases v,
    {
        let mut r: Vec<GGGame> = Vec::new();
        let mut i: usize = 0;
        while i < v.len()
            invariant
                i <= v@.len(),
                r@.len() == i,
                forall|k: int| 0 <= k < i ==> v@[k].same(&(#[trigger] r@[k])),
            decreases v@.len() - i,
        {
            proof {
                assert(decreases_to!(v => v[i as int]));
            }
            r.push(v[i].copy());
            i = i + 1;
        }
        r
    }

    /// Returns the id of the game.
    ///
    /// Returns zero if not set or wasn't queried.
    pub fn id(&self) -> (r: i64)
        ensures
            r == int_or_zero(self.id),
    {
        int_field(self.id)
    }

    /// Returns the images of the game.
    ///
    /// Returns an empty vector if not set or wasn't queried.
    pub fn images(&self) -> (r: Vec<GGImage>)
        ensures
            match self.images {
                Some(v) => {
                    &&& r@.len() == v@.len()
                    &&& forall|i: int| 0 <= i < v@.len() ==> v@[i].same(&(#[trigger] r@[i]))
                },
                None => r@.len() == 0,
            },
    {
        match &self.images {
            Some(v) => GGImage::copy_all(v),
            None => Vec::new(),
        }
    }

    /// Returns the order number of the game.
    ///
    /// Returns zero if not set or wasn't queried.
    pub fn order_num(&self) -> (r: i64)
        ensures
            r == int_or_zero(self.order_num),
    {
        int_field(self.order_num)
    }

    /// Returns the selections of the game.
    ///
    /// Returns an empty vector if not set or wasn't queried.
    pub fn selections(&self) -> (r: Vec<GGGameSelection>)
        ensures
            match self.selections {
                Some(v) => {
                    &&& r@.len() == v@.len()
                    &&& forall|i: int| 0 <= i < v@.len() ==> v@[i].same(&(#[trigger] r@[i]))
                },
                None => r@.len() == 0,
            },
    {
        match &self.selections {
            Some(v) => GGGameSelection::copy_all(v),
            None => Vec::new(),
        }
    }

    /// Returns the stage of the game.
    ///
    /// Returns an empty stage if not set or wasn't queried.
    pub fn stage(&self) -> (r: GGStage)
        ensures
            match self.stage {
                Some(c) => c.same(&r),
                None => r.is_blank(),
            },
    {
        match &self.stage {
            Some(c) => c.copy(),
            None => GGStage::default(),
        }
    }

    /// Returns the state of the game.
    ///
    /// Returns zero if not set or wasn't queried.
    pub fn state(&self) -> (r: i64)
        ensures
            r == int_or_zero(self.state),
    {
        int_field(self.state)
    }

    /// Returns the winner id of the game.
    ///
    /// Returns zero if not set or wasn't queried.
    pub fn winner_id(&self) -> (r: i64)
        ensures
            r == int_or_zero(self.winner_id),
    {
        int_field(self.winner_id)
    }
}

impl Clone for GGGame {
    fn clone(&self) -> (r: GGGame)
        ensures
            self.same(&r),
    {
        self.copy()
    }
}

impl Default for GGGame {
    fn default() -> (r: GGGame)
        ensures
            r.is_blank(),
    {
        GGGame {
            id: None,
            images: None,
            order_num: None,
            selections: None,
            stage: None,
            state: None,
            winner_id: None,
        }
    }
}

} // verus!
