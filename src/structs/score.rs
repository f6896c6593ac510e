//! start.gg Score.

use vstd::prelude::*;

use crate::field::{text_or_empty, text_field};

verus! {

/// Equivalent for start.gg Score.
///
/// Each element in the structure is optional, allowing a user to only query values they want.
/// Given each is an option and not a requirement, a method is included for each element with the same name.
/// These methods will unwrap and return the proper value without any unwrapping or references needed.
#[derive(Debug)]
pub struct GGScore {
    pub display_value: Option<String>,
    pub label: Option<String>,
}

impl GGScore {
    /// Whether no field was set, as after a query that requested none.
    pub open spec fn is_blank(&self) -> bool {
        &&& self.display_value is None
        &&& self.label is None
    }

    /// Whether `other` holds the same values as `self`, field by field and
    /// through every record and list below it.
    pub open spec fn same(&self, other: &GGScore) -> bool
        decreases self,
    {
        &&& self.display_value == other.display_value
        &&& self.label == other.label
    }

    /// Returns a copy of the record.
    pub fn copy(&self) -> (r: GGScore)
        ensures
            self.same(&r),
            r == *self,
        decreases self,
    {
        GGScore {
            display_value: self.display_value.clone(),
            label: self.label.clone(),
        }
    }

    /// Returns the display value of the score.
    ///
    /// Returns an empty string if not set or wasn't queried.
    pub fn display_value(&self) -> (r: String)
        ensures
            r@ == text_or_empty(self.display_value),
    {
        text_field(&self.display_value)
    }

    /// Returns the label of the score.
    ///
    /// Returns an empty string if not set or wasn't queried.
    pub fn label(&self) -> (r: String)
        ensures
            r@ == text_or_empty(self.label),
    {
        text_field(&self.label)
    }
}

impl Clone for GGScore {
    fn clone(&self) -> (r: GGScore)
        ensures
            self.same(&r),
            r == *self,
    {
        self.copy()
    }
}

impl Default for GGScore {
    fn default() -> (r: GGScore)
        ensures
            r.is_blank(),
    {
        GGScore {
            display_value: None,
            label: None,
        }
    }
}

} // verus!
