//! The message list of a session: pages are loaded as the user scrolls and
//! appended to what is shown.
use vstd::prelude::*;
use vstd::string::StringExecFns;

use crate::domain::page::DomainPage;
use crate::error::AppError;
use crate::ui::views::{error_info, shows_error, ErrorInfo};

verus! {

/// Where the list stands.
#[derive(Clone, Copy, Debug, PartialEq, Eq, Structural)]
pub enum FeedStatus {
    /// Nothing was asked yet.
    Initial,
    /// The first page is being loaded.
    Loading,
    /// Items are shown.
    Loaded,
    /// The session has no message.
    Empty,
    /// Loading the first page failed.
    Error,
}

/// The message list: the items shown, the last page loaded, whether there is
/// a next page, whether a further page is being loaded, and the last error.
#[derive(Clone, Debug)]
pub struct MessageFeed<T> {
    pub items: Vec<T>,
    pub page: u64,
    pub has_next: bool,
    pub fetching_more: bool,
    pub status: FeedStatus,
    pub error: Option<ErrorInfo>,
}

/// What the list shows.
#[derive(Clone, Debug, PartialEq, Eq)]
pub enum FeedView {
    Loading,
    Failed(ErrorInfo),
    Empty,
    Items,
}

impl<T> MessageFeed<T> {
    /// A list that has asked for nothing yet.
    pub fn new() -> (r: Self)
        ensures
            r.items@.len() == 0,
            r.page == 1,
            !r.has_next,
            !r.fetching_more,
            r.status == FeedStatus::Initial,
            r.error is None,
    {
        MessageFeed {
            items: Vec::new(),
            page: 1,
            has_next: false,
            fetching_more: false,
            status: FeedStatus::Initial,
            error: None,
        }
    }

    /// Forgets the items, to load the list again from its first page.
    pub fn restart(&mut self)
        ensures
            final(self).items@.len() == 0,
            final(self).page == 1,
            !final(self).has_next,
            final(self).fetching_more == old(self).fetching_more,
            final(self).status == old(self).status,
            final(self).error == old(self).error,
    {
        self.items = Vec::new();
        self.page = 1;
        self.has_next = false;
    }

    /// No session is selected: the list is empty.
    pub fn clear(&mut self)
        ensures
            final(self).items@.len() == 0,
            final(self).status == FeedStatus::Empty,
            final(self).page == old(self).page,
            final(self).has_next == old(self).has_next,
            final(self).fetching_more == old(self).fetching_more,
            final(self).error == old(self).error,
    {
        self.items = Vec::new();
        self.status = FeedStatus::Empty;
    }

    /// A page is asked for: a further page (`append`) shows a loader under
    /// the items; the first page replaces the list with a loader.
    pub fn start_fetch(&mut self, append: bool)
        ensures
            final(self).items == old(self).items,
            final(self).page == old(self).page,
            final(self).has_next == old(self).has_next,
            append ==> final(self).fetching_more && final(self).status == old(self).status
                && final(self).error == old(self).error,
            !append ==> final(self).fetching_more == old(self).fetching_more && final(self).status
                == FeedStatus::Loading && final(self).error is None,
    {
        if append {
            self.fetching_more = true;
        } else {
            self.status = FeedStatus::Loading;
            self.error = None;
        }
    }

    /// Takes the answer for a page. A first page with no item empties the
    /// list; a page with items is shown after the items already shown
    /// (`append`) or in their place; a failure is kept, and replaces the list
    /// only for a first page. No page is being loaded afterwards.
    pub fn on_page(&mut self, result: Result<DomainPage<T>, AppError>, append: bool)
        ensures
            !final(self).fetching_more,
            match result {
                Ok(p) => if p.items@.len() == 0 && !append {
                    &&& final(self).items@.len() == 0
                    &&& final(self).status == FeedStatus::Empty
                    &&& final(self).page == old(self).page
                    &&& final(self).has_next == old(self).has_next
                    &&& final(self).error == old(self).error
                } else {
                    &&& final(self).has_next == p.info.has_next
                    &&& final(self).page == p.info.page
                    &&& final(self).error == old(self).error
                    &&& if append {
                        final(self).items@ == old(self).items@ + p.items@ && final(self).status
                            == old(self).status
                    } else {
                        final(self).items@ == p.items@ && final(self).status == FeedStatus::Loaded
                    }
                },
                Err(e) => {
                    &&& final(self).error matches Some(info) && shows_error(info, e)
                    &&& final(self).items == old(self).items
                    &&& final(self).page == old(self).page
                    &&& final(self).has_next == old(self).has_next
                    &&& final(self).status == if append {
                        old(self).status
                    } else {
                        FeedStatus::Error
                    }
                },
            },
    {
        match result {
            Ok(p) => {
                if p.items.len() == 0 && !append {
                    self.items = Vec::new();
                    self.status = FeedStatus::Empty;
                } else {
                    self.has_next = p.info.has_next;
                    self.page = p.info.page;
                    if append {
                        let mut more = p.items;
                        self.items.append(&mut more);
                    } else {
                        self.items = p.items;
                        self.status = FeedStatus::Loaded;
                    }
                }
            },
            Err(e) => {
                self.error = Some(error_info(&e));
                if !append {
                    self.status = FeedStatus::Error;
                }
            },
        }
        self.fetching_more = false;
    }

    /// The page to load when the list is scrolled: the next one, when the
    /// view is near the bottom, there is a next page, and none is being
    /// loaded.
    pub fn next_page(&self, near_bottom: bool) -> (r: Option<u64>)
        requires
            self.page < u64::MAX,
        ensures
            (near_bottom && self.has_next && !self.fetching_more) ==> r == Some(
                (self.page + 1) as u64,
            ),
            !(near_bottom && self.has_next && !self.fetching_more) ==> r is None,
    {
        if near_bottom && self.has_next && !self.fetching_more {
            Some(self.page + 1)
        } else {
            None
        }
    }

    /// What the list shows: a loader before the first page came, the error of
    /// a failed first page (or a generic one), the empty note, or the items.
    pub fn view(&self) -> (r: FeedView)
        ensures
            (self.status == FeedStatus::Initial || self.status == FeedStatus::Loading) ==> r
                == FeedView::Loading,
            self.status == FeedStatus::Error ==> (r matches FeedView::Failed(info) && match self.error {
                Some(e) => info == e,
                None => info.code@ == "unknown_error"@ && info.message@
                    == "An unknown error occurred."@ && info.retryable,
            }),
            self.status == FeedStatus::Empty ==> r == FeedView::Empty,
            self.status == FeedStatus::Loaded ==> r == FeedView::Items,
    {
        match self.status {
            FeedStatus::Initial | FeedStatus::Loading => FeedView::Loading,
            FeedStatus::Error => match &self.error {
                Some(e) => FeedView::Failed(
                    ErrorInfo { code: e.code.clone(), message: e.message.clone(), retryable: e.retryable },
                ),
                None => FeedView::Failed(
                    ErrorInfo {
                        code: String::from_str("unknown_error"),
                        message: String::from_str("An unknown error occurred."),
                        retryable: true,
                    },
                ),
            },
            FeedStatus::Empty => FeedView::Empty,
            FeedStatus::Loaded => FeedView::Items,
        }
    }
}

} // verus!
