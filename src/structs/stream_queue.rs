//! start.gg StreamQueue.

use vstd::prelude::*;

use crate::field::{text_or_empty, text_field};
use crate::structs::streams::GGStreams;

verus! {

/// Equivalent for start.gg StreamQueue.
///
/// Each element in the structure is optional, allowing a user to only query values they want.
/// Given each is an option and not a requirement, a method is included for each element with the same name.
/// These methods will unwrap and return the proper value without any unwrapping or references needed.
#[derive(Debug)]
pub struct GGStreamQueue {
    pub id: Option<String>,
    pub stream: Option<Box<GGStreams>>,
}

impl GGStreamQueue {
    /// Whether no field was set, as after a query that requested none.
    pub open spec fn is_blank(&self) -> bool {
        &&& self.id is None
        &&& self.stream is None
    }

    /// Whether `other` holds the same values as `self`, field by field and
    /// through every record and list below it.
    pub open spec fn same(&self, other: &GGStreamQueue) -> bool
        decreases self,
    {
        &&& self.id == other.id
        &&& match (self.stream, other.stream) {
            (Some(a), Some(b)) => a.same(&b),
            (None, None) => true,
            _ => false,
        }
    }

    /// Returns a copy of the record.
    pub fn copy(&self) -> (r: GGStreamQueue)
        ensures
            self.same(&r),
        decreases self,
    {
        GGStreamQueue {
            id: self.id.clone(),
            stream: match &self.stream {
                Some(b) => Some(Box::new(b.copy())),
                None => None,
            },
        }
    }

    /// Returns the id of the stream queue.
    ///
    /// Returns an empty string if not set or wasn't queried.
    pub fn id(&self) -> (r: String)
        ensures
            r@ == text_or_empty(self.id),
    {
        text_field(&self.id)
    }

    /// Returns the stream of the stream queue.
    ///
    /// Returns an empty tournament if not set or wasn't queried.
    pub fn stream(&self) -> (r: GGStreams)
        ensures
            match self.stream {
                Some(c) => c.same(&r),
                None => r.is_blank(),
            },
    {
        match &self.stream {
            Some(c) => c.copy(),
            None => GGStreams::default(),
        }
    }
}

impl Clone for GGStreamQueue {
    fn clone(&self) -> (r: GGStreamQueue)
        ensures
            self.same(&r),
    {
        self.copy()
    }
}

impl Default for GGStreamQueue {
    fn default() -> (r: GGStreamQueue)
        ensures
            r.is_blank(),
    {
        GGStreamQueue {
            id: None,
            stream: None,
        }
    }
}

} // verus!
