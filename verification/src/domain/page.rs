//! One page of a paginated listing.
use vstd::prelude::*;

verus! {

/// Where a page stands in a paginated listing.
#[derive(Debug, Clone, PartialEq, Eq)]
pub struct PageInfo {
    pub page: u64,
    pub size: u64,
    pub total: u64,
    pub pages: u64,
    pub has_next: bool,
}

/// The items of one page and where the page stands.
#[derive(Debug, Clone, PartialEq, Eq)]
pub struct DomainPage<T> {
    pub items: Vec<T>,
    pub info: PageInfo,
}

/// The position of a listing that has nothing in it: page 1 of size 50, no
/// items, no pages, no next page.
pub open spec fn empty_page_info() -> PageInfo {
    PageInfo { page: 1, size: 50, total: 0, pages: 0, has_next: false }
}

impl<T> DomainPage<T> {
    /// A first page with no items.
    pub fn empty() -> (r: Self)
        ensures
            r.items@.len() == 0,
            r.info == empty_page_info(),
    {
        Self {
            items: Vec::new(),
            info: PageInfo { page: 1, size: 50, total: 0, pages: 0, has_next: false },
        }
    }

    /// Whether the page holds no items.
    pub fn is_empty(&self) -> (r: bool)
        ensures
            r == (self.items@.len() == 0),
    {
        self.items.len() == 0
    }
}

} // verus!
