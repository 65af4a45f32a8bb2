//! A page of records, with where it stands among all the records.

use vstd::prelude::*;

verus! {

/// A page of records, with where it stands among all the records.
#[derive(Debug, Clone)]
pub struct PaginatedResponse<T> {
    pub records: Vec<T>,
    pub page: i64,
    pub page_size: i64,
    pub total: Option<i64>,
    pub total_pages: Option<i64>,
}

impl<T> PaginatedResponse<T> {
    /// Puts a page together from its parts.
    pub fn new(
        records: Vec<T>,
        page: i64,
        page_size: i64,
        total: Option<i64>,
        total_pages: Option<i64>,
    ) -> (response: Self)
        ensures
            response.records == records,
            response.page == page,
            response.page_size == page_size,
            response.total == total,
            response.total_pages == total_pages,
    {
        Self { records, page, page_size, total, total_pages }
    }
}

} // verus!
