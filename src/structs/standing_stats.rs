//! start.gg StandingStats.

use vstd::prelude::*;

use crate::structs::score::GGScore;

verus! {

/// Equivalent for start.gg StandingStats.
///
/// Each element in the structure is optional, allowing a user to only query values they want.
/// Given each is an option and not a requirement, a method is included for each element with the same name.
/// These methods will unwrap and return the proper value without any unwrapping or references needed.
#[derive(Debug)]
pub struct GGStandingStats {
    pub score: Option<Box<GGScore>>,
}

impl GGStandingStats {
    /// Whether no field was set, as after a query that requested none.
    pub open spec fn is_blank(&self) -> bool {
        &&& self.score is None
    }

    /// Whether `other` holds the same values as `self`, field by field and
    /// through every record and list below it.
    pub open spec fn same(&self, other: &GGStandingStats) -> bool
        decreases self,
    {
        &&& match (self.score, other.score) {
            (Some(a), Some(b)) => a.same(&b),
            (None, None) => true,
            _ => false,
        }
    }

    /// Returns a copy of the record.
    pub fn copy(&self) -> (r: GGStandingStats)
        ensures
            self.same(&r),
        decreases self,
    {
        GGStandingStats {
            score: match &self.score {
                Some(b) => Some(Box::new(b.copy())),
                None => None,
            },
        }
    }

    /// Returns the score of the standing.
    ///
    /// Returns an empty score if not set or wasn't queried.
    pub fn score(&self) -> (r: GGScore)
        ensures
            match self.score {
                Some(c) => c.same(&r),
                None => r.is_blank(),
            },
    {
        match &self.score {
            Some(c) => c.copy(),
            None => GGScore::default(),
        }
    }
}

impl Clone for GGStandingStats {
    fn clone(&self) -> (r: GGStandingStats)
        ensures
            self.same(&r),
    {
        self.copy()
    }
}

impl Default for GGStandingStats {
    fn default() -> (r: GGStandingStats)
        ensures
            r.is_blank(),
    {
        GGStandingStats {
            score: None,
        }
    }
}

} // verus!
