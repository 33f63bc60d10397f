//! The requests that callers make: each an operation in steps over the records.

pub mod notification;
pub mod task;

use vstd::prelude::*;
use crate::id::Id;

verus! {

/// A request for one page of a list.
#[derive(Clone, Debug)]
pub struct Pagination {
    pub uid: Id,
    pub page_size: Option<u16>,
    pub page_token: Option<Id>,
    pub status: Option<i8>,
    pub fields: Option<Vec<String>>,
}

/// One page of a list, and the cursor of the next page where there may be one.
#[derive(Debug)]
pub struct Page<T> {
    pub next_page_token: Option<Id>,
    pub result: Vec<T>,
}

/// The size of a page where the request gives none.
pub const DEFAULT_PAGE_SIZE: u16 = 10;

/// The size of the page that a request asks for: its own, or 10.
pub open spec fn page_size_of(page_size: Option<u16>) -> u16 {
    match page_size {
        Some(n) => n,
        None => DEFAULT_PAGE_SIZE,
    }
}

/// The cursor after a page of `len` rows that ends with the task `last`: the id of that
/// task where the page is full, and none where it is not. An empty page is never full.
pub open spec fn cursor_after(len: nat, page_size: u16, last: Id) -> Option<Id> {
    if len > 0 && len >= page_size {
        Some(last)
    } else {
        None
    }
}

/// The size of the page that a request asks for.
pub fn page_size(input: &Pagination) -> (n: u16)
    ensures
        n == page_size_of(input.page_size),
{
    match input.page_size {
        Some(n) => n,
        None => DEFAULT_PAGE_SIZE,
    }
}

/// The cursor of the next page: see [`cursor_after`].
pub fn next_page_token(len: usize, page_size: u16, last: Id) -> (token: Option<Id>)
    ensures
        token == cursor_after(len as nat, page_size, last),
{
    if len > 0 && len >= (page_size as usize) {
        Some(last)
    } else {
        None
    }
}

} // verus!
