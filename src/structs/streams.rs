//! start.gg Streams.

use vstd::prelude::*;

use crate::field::{text_or_empty, text_field, int_or_zero, int_field, flag_or_false, flag_field};

verus! {

/// Equivalent for start.gg Streams.
///
/// Each element in the structure is optional, allowing a user to only query values they want.
/// Given each is an option and not a requirement, a method is included for each element with the same name.
/// These methods will unwrap and return the proper value without any unwrapping or references needed.
#[derive(Debug)]
pub struct GGStreams {
    pub enabled: Option<bool>,
    pub follower_count: Option<i64>,
    pub id: Option<i64>,
    pub is_online: Option<bool>,
    pub num_setups: Option<i64>,
    pub parent_stream_id: Option<i64>,
    pub stream_game: Option<String>,
    pub stream_id: Option<String>,
    pub stream_logo: Option<String>,
    pub stream_name: Option<String>,
    pub stream_source: Option<i64>,
    pub stream_status: Option<String>,
    pub stream_type: Option<i64>,
    pub stream_type_id: Option<i64>,
}

impl GGStreams {
    /// Whether no field was set, as after a query that requested none.
    pub open spec fn is_blank(&self) -> bool {
        &&& self.enabled is None
        &&& self.follower_count is None
        &&& self.id is None
        &&& self.is_online is None
        &&& self.num_setups is None
        &&& self.parent_stream_id is None
        &&& self.stream_game is None
        &&& self.stream_id is None
        &&& self.stream_logo is None
        &&& self.stream_name is None
        &&& self.stream_source is None
        &&& self.stream_status is None
        &&& self.stream_type is None
        &&& self.stream_type_id is None
    }

    /// Whether `other` holds the same values as `self`, field by field and
    /// through every record and list below it.
    pub open spec fn same(&self, other: &GGStreams) -> bool
        decreases self,
    {
        &&& self.enabled == other.enabled
        &&& self.follower_count == other.follower_count
        &&& self.id == other.id
        &&& self.is_online == other.is_online
        &&& self.num_setups == other.num_setups
        &&& self.parent_stream_id == other.parent_stream_id
        &&& self.stream_game == other.stream_game
        &&& self.stream_id == other.stream_id
        &&& self.stream_logo == other.stream_logo
        &&& self.stream_name == other.stream_name
        &&& self.stream_source == other.stream_source
        &&& self.stream_status == other.stream_status
        &&& self.stream_type == other.stream_type
        &&& self.stream_type_id == other.stream_type_id
    }

    /// Returns a copy of the record.
    pub fn copy(&self) -> (r: GGStreams)
        ensures
            self.same(&r),
            r == *self,
        decreases self,
    {
        GGStreams {
            enabled: self.enabled,
            follower_count: self.follower_count,
            id: self.id,
            is_online: self.is_online,
            num_setups: self.num_setups,
            parent_stream_id: self.parent_stream_id,
            stream_game: self.stream_game.clone(),
            stream_id: self.stream_id.clone(),
            stream_logo: self.stream_logo.clone(),
            stream_name: self.stream_name.clone(),
            stream_source: self.stream_source,
            stream_status: self.stream_status.clone(),
            stream_type: self.stream_type,
            stream_type_id: self.stream_type_id,
        }
    }

    /// Returns if the streams are enabled.
    ///
    /// Returns zero if not set or wasn't queried.
    pub fn enabled(&self) -> (r: bool)
        ensures
            r == flag_or_false(self.enabled),
    {
        flag_field(self.enabled)
    }

    /// Returns the follower count of the streams.
    ///
    /// Returns zero if not set or wasn't queried.
    pub fn follower_count(&self) -> (r: i64)
        ensures
            r == int_or_zero(self.follower_count),
    {
        int_field(self.follower_count)
    }

    /// Returns the id of the streams.
    ///
    /// Returns zero if not set or wasn't queried.
    pub fn id(&self) -> (r: i64)
        ensures
            r == int_or_zero(self.id),
    {
        int_field(self.id)
    }

    /// Returns if the streams is online.
    ///
    /// Returns zero if not set or wasn't queried.
    pub fn is_online(&self) -> (r: bool)
        ensures
            r == flag_or_false(self.is_online),
    {
        flag_field(self.is_online)
    }

    /// Returns the number of setups on the streams.
    ///
    /// Returns zero if not set or wasn't queried.
    pub fn num_setups(&self) -> (r: i64)
        ensures
            r == int_or_zero(self.num_setups),
    {
        int_field(self.num_setups)
    }

    /// Returns the parent stream id of the streams.
    ///
    /// Returns zero if not set or wasn't queried.
    pub fn parent_stream_id(&self) -> (r: i64)
        ensures
            r == int_or_zero(self.parent_stream_id),
    {
        int_field(self.parent_stream_id)
    }

    /// Returns the stream game of the streams.
    ///
    /// Returns an empty string if not set or wasn't queried.
    pub fn stream_game(&self) -> (r: String)
        ensures
            r@ == text_or_empty(self.stream_game),
    {
        text_field(&self.stream_game)
    }

    /// Returns the stream id of the streams.
    ///
    /// Returns an empty string if not set or wasn't queried.
    pub fn stream_id(&self) -> (r: String)
        ensures
            r@ == text_or_empty(self.stream_id),
    {
        text_field(&self.stream_id)
    }

    /// Returns the stream logo of the streams.
    ///
    /// Returns an empty string if not set or wasn't queried.
    pub fn stream_logo(&self) -> (r: String)
        ensures
            r@ == text_or_empty(self.stream_logo),
    {
        text_field(&self.stream_logo)
    }

    /// Returns the stream name of the streams.
    ///
    /// Returns an empty string if not set or wasn't queried.
    pub fn stream_name(&self) -> (r: String)
        ensures
            r@ == text_or_empty(self.stream_name),
    {
        text_field(&self.stream_name)
    }

    /// Returns the stream source of the streams.
    ///
    /// Returns zero if not set or wasn't queried.
    pub fn stream_source(&self) -> (r: i64)
        ensures
            r == int_or_zero(self.stream_source),
    {
        int_field(self.stream_source)
    }

    /// Returns the stream status of the streams.
    ///
    /// Returns an empty string if not set or wasn't queried.
    pub fn stream_status(&self) -> (r: String)
        ensures
            r@ == text_or_empty(self.stream_status),
    {
        text_field(&self.stream_status)
    }

    /// Returns the stream type of the streams.
    ///
    /// Returns zero if not set or wasn't queried.
    pub fn stream_type(&self) -> (r: i64)
        ensures
            r == int_or_zero(self.stream_type),
    {
        int_field(self.stream_type)
    }

    /// Returns the stream type id of the streams.
    ///
    /// Returns zero if not set or wasn't queried.
    pub fn stream_type_id(&self) -> (r: i64)
        ensures
            r == int_or_zero(self.stream_type_id),
    {
        int_field(self.stream_type_id)
    }
}

impl Clone for GGStreams {
    fn clone(&self) -> (r: GGStreams)
        ensures
            self.same(&r),
            r == *self,
    {
        self.copy()
    }
}

impl Default for GGStreams {
    fn default() -> (r: GGStreams)
        ensures
            r.is_blank(),
    {
        GGStreams {
            enabled: None,
            follower_count: None,
            id: None,
            is_online: None,
            num_setups: None,
            parent_stream_id: None,
            stream_game: None,
            stream_id: None,
            stream_logo: None,
            stream_name: None,
            stream_source: None,
            stream_status: None,
            stream_type: None,
            stream_type_id: None,
        }
    }
}

} // verus!
