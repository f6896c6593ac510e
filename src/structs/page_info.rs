//! start.gg PageInfo.

use vstd::prelude::*;

use crate::field::{text_or_empty, text_field, int_or_zero, int_field};

verus! {

/// Equivalent for start.gg PageInfo.
///
/// Each element in the structure is optional, allowing a user to only query values they want.
/// Given each is an option and not a requirement, a method is included for each element with the same name.
/// These methods will unwrap and return the proper value without any unwrapping or references needed.
#[derive(Debug)]
pub struct GGPageInfo {
    pub total: Option<i64>,
    pub total_pages: Option<i64>,
    pub page: Option<i64>,
    pub per_page: Option<i64>,
    pub sort_by: Option<String>,
}

impl GGPageInfo {
    /// Whether no field was set, as after a query that requested none.
    pub open spec fn is_blank(&self) -> bool {
        &&& self.total is None
        &&& self.total_pages is None
        &&& self.page is None
        &&& self.per_page is None
        &&& self.sort_by is None
    }

    /// Whether `other` holds the same values as `self`, field by field and
    /// through every record and list below it.
    pub open spec fn same(&self, other: &GGPageInfo) -> bool
        decreases self,
    {
        &&& self.total == other.total
        &&& self.total_pages == other.total_pages
        &&& self.page == other.page
        &&& self.per_page == other.per_page
        &&& self.sort_by == other.sort_by
    }

    /// Returns a copy of the record.
    pub fn copy(&self) -> (r: GGPageInfo)
        ensures
            self.same(&r),
            r == *self,
        decreases self,
    {
        GGPageInfo {
            total: self.total,
            total_pages: self.total_pages,
            page: self.page,
            per_page: self.per_page,
            sort_by: self.sort_by.clone(),
        }
    }

    /// Returns the total of the page info.
    ///
    /// Returns zero if not set or wasn't queried.
    pub fn total(&self) -> (r: i64)
        ensures
            r == int_or_zero(self.total),
    {
        int_field(self.total)
    }

    /// Returns the total pages of the page info.
    ///
    /// Returns zero if not set or wasn't queried.
    pub fn total_pages(&self) -> (r: i64)
        ensures
            r == int_or_zero(self.total_pages),
    {
        int_field(self.total_pages)
    }

    /// Returns the page of the page info.
    ///
    /// Returns zero if not set or wasn't queried.
    pub fn page(&self) -> (r: i64)
        ensures
            r == int_or_zero(self.page),
    {
        int_field(self.page)
    }

    /// Returns the number per page of the page info.
    ///
    /// Returns zero if not set or wasn't queried.
    pub fn per_page(&self) -> (r: i64)
        ensures
            r == int_or_zero(self.per_page),
    {
        int_field(self.per_page)
    }

    /// Returns the sort by of the stream.
    ///
    /// Returns an empty string if not set or wasn't queried.
    pub fn sort_by(&self) -> (r: String)
        ensures
            r@ == text_or_empty(self.sort_by),
    {
        text_field(&self.sort_by)
    }
}

impl Clone for GGPageInfo {
    fn clone(&self) -> (r: GGPageInfo)
        ensures
            self.same(&r),
            r == *self,
    {
        self.copy()
    }
}

impl Default for GGPageInfo {
    fn default() -> (r: GGPageInfo)
        ensures
            r.is_blank(),
    {
        GGPageInfo {
            total: None,
            total_pages: None,
            page: None,
            per_page: None,
            sort_by: None,
        }
    }
}

} // verus!
