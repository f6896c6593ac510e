//! start.gg Stage.

use vstd::prelude::*;

use crate::field::{text_or_empty, text_field, int_or_zero, int_field};

verus! {

/// Equivalent for start.gg Stage: where a game was played.
#[derive(Debug)]
pub struct GGStage {
    pub id: Option<i64>,
    pub name: Option<String>,
}

impl GGStage {
    /// Whether no field was set, as after a query that requested none.
    pub open spec fn is_blank(&self) -> bool {
        &&& self.id is None
        &&& self.name is None
    }

    /// Whether `other` holds the same values as `self`, field by field and
    /// through every record and list below it.
    pub open spec fn same(&self, other: &GGStage) -> bool
        decreases self,
    {
        &&& self.id == other.id
        &&& self.name == other.name
    }

    /// Returns a copy of the record.
    pub fn copy(&self) -> (r: GGStage)
        ensures
            self.same(&r),
            r == *self,
        decreases self,
    {
        GGStage {
            id: self.id,
            name: self.name.clone(),
        }
    }

    /// Returns the id of the stage.
    ///
    /// Returns zero if not set or wasn't queried.
    pub fn id(&self) -> (r: i64)
        ensures
            r == int_or_zero(self.id),
    {
        int_field(self.id)
    }

    /// Returns the name of the stage.
    ///
    /// Returns an empty string if not set or wasn't queried.
    pub fn name(&self) -> (r: String)
        ensures
            r@ == text_or_empty(self.name),
    {
        text_field(&self.name)
    }
}

impl Clone for GGStage {
    fn clone(&self) -> (r: GGStage)
        ensures
            self.same(&r),
            r == *self,
    {
        self.copy()
    }
}

impl Default for GGStage {
    fn default() -> (r: GGStage)
        ensures
            r.is_blank(),
    {
        GGStage {
            id: None,
            name: None,
        }
    }
}

} // verus!
