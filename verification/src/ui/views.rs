//! What a panel shows for the answer to one of its requests: the data, a
//! note that there is nothing, or the error with a retry where one may help.
use vstd::prelude::*;
use vstd::string::StringExecFns;

use crate::domain::page::DomainPage;
use crate::domain::queue::QueueStatus;
use crate::error::{code_of, user_message_of, AppError};

verus! {

/// What an error view shows: the error's code, its message, and whether a
/// retry is offered.
#[derive(Clone, Debug, PartialEq, Eq)]
pub struct ErrorInfo {
    pub code: String,
    pub message: String,
    pub retryable: bool,
}

/// `info` shows the error `e`.
pub open spec fn shows_error(info: ErrorInfo, e: AppError) -> bool {
    &&& info.code@ == code_of(e)
    &&& info.message@ == user_message_of(e)
    &&& info.retryable == (e matches AppError::Honcho(f) && f.retryable)
}

/// The error view of `e`.
pub fn error_info(e: &AppError) -> (r: ErrorInfo)
    ensures
        shows_error(r, *e),
{
    ErrorInfo { code: String::from_str(e.code()), message: e.user_message(), retryable: e.is_retryable() }
}

/// What a panel shows once its request is answered.
#[derive(Clone, Debug)]
pub enum ViewState<T> {
    /// The data, which holds something.
    Ready(T),
    /// The answer holds nothing.
    Empty,
    /// The request failed.
    Failed(ErrorInfo),
}

/// `r` is what a panel shows for `result`, where `is_empty` tells whether a
/// successful answer holds nothing.
pub open spec fn shows_result<T>(r: ViewState<T>, result: Result<T, AppError>, is_empty: bool) -> bool {
    match result {
        Ok(v) => if is_empty {
            r is Empty
        } else {
            r == ViewState::Ready(v)
        },
        Err(e) => r matches ViewState::Failed(info) && shows_error(info, e),
    }
}

/// The view of one page of a listing: empty when the page has no item.
pub fn page_view<T>(result: Result<DomainPage<T>, AppError>) -> (r: ViewState<DomainPage<T>>)
    ensures
        shows_result(r, result, result matches Ok(p) && p.items@.len() == 0),
{
    match result {
        Ok(page) => {
            if page.is_empty() {
                ViewState::Empty
            } else {
                ViewState::Ready(page)
            }
        },
        Err(e) => ViewState::Failed(error_info(&e)),
    }
}

/// The view of a list of rows: empty when there is no row.
pub fn rows_view<T>(result: Result<Vec<T>, AppError>) -> (r: ViewState<Vec<T>>)
    ensures
        shows_result(r, result, result matches Ok(v) && v@.len() == 0),
{
    match result {
        Ok(rows) => {
            if rows.len() == 0 {
                ViewState::Empty
            } else {
                ViewState::Ready(rows)
            }
        },
        Err(e) => ViewState::Failed(error_info(&e)),
    }
}

/// The view of the work queue: empty when it counts no work unit.
pub fn queue_view(result: Result<QueueStatus, AppError>) -> (r: ViewState<QueueStatus>)
    requires
        result matches Ok(q) ==> q.pending + q.running + q.completed <= u64::MAX,
    ensures
        shows_result(
            r,
            result,
            result matches Ok(q) && q.pending + q.running + q.completed == 0,
        ),
{
    match result {
        Ok(q) => {
            if q.is_empty() {
                ViewState::Empty
            } else {
                ViewState::Ready(q)
            }
        },
        Err(e) => ViewState::Failed(error_info(&e)),
    }
}

} // verus!
