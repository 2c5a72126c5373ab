//! What the panels report after an action on the workspace: deleting,
//! cloning, disconnecting, saving metadata, scheduling a dream, and the
//! checks that guard such actions.
use vstd::prelude::*;
use vstd::string::StringExecFns;

use crate::domain::WorkspaceInfo;
use crate::error::{user_message_of, AppError};
use crate::numeric::{decimal, decimal_text};
use crate::state::connection::ConnectionState;
use crate::state::selection::{InspectorSection, Selection};
use crate::state::toast::ToastKind;
use crate::text::str_eq;

verus! {

/// The status line after a failed delete, or `None` after a delete that
/// succeeded. `None` for `reply` means that the answer never came.
pub fn delete_failure(reply: Option<Result<(), AppError>>) -> (r: Option<String>)
    ensures
        match reply {
            Some(Ok(())) => r is None,
            Some(Err(e)) => r matches Some(m) && m@ == "Delete failed: "@ + user_message_of(e),
            None => r matches Some(m) && m@ == "Delete failed: channel closed"@,
        },
{
    match reply {
        Some(Ok(())) => None,
        Some(Err(e)) => Some(String::from_str("Delete failed: ").concat(e.user_message().as_str())),
        None => Some(String::from_str("Delete failed: channel closed")),
    }
}

/// The status line after deleting a session.
pub fn session_delete_status(reply: Option<Result<(), AppError>>) -> (r: String)
    ensures
        r@ == match reply {
            Some(Ok(())) => "Session deleted"@,
            Some(Err(e)) => "Delete failed: "@ + user_message_of(e),
            None => "Delete cancelled (channel closed)"@,
        },
{
    match reply {
        Some(Ok(())) => String::from_str("Session deleted"),
        Some(Err(e)) => String::from_str("Delete failed: ").concat(e.user_message().as_str()),
        None => String::from_str("Delete cancelled (channel closed)"),
    }
}

/// The status line after cloning a session; the answer carries the id of the
/// copy.
pub fn session_clone_status(reply: Option<Result<String, AppError>>) -> (r: String)
    ensures
        r@ == match reply {
            Some(Ok(id)) => "Session cloned \u{2192} "@ + id@,
            Some(Err(e)) => "Clone failed: "@ + user_message_of(e),
            None => "Clone cancelled (channel closed)"@,
        },
{
    match reply {
        Some(Ok(id)) => String::from_str("Session cloned \u{2192} ").concat(id.as_str()),
        Some(Err(e)) => String::from_str("Clone failed: ").concat(e.user_message().as_str()),
        None => String::from_str("Clone cancelled (channel closed)"),
    }
}

/// How a request to disconnect ended.
#[derive(Debug)]
pub enum DisconnectReply {
    /// The connection was closed.
    Done,
    /// Closing failed.
    Failed(AppError),
    /// The answer was dropped.
    Dropped,
    /// No answer came in time.
    TimedOut,
}

/// The status line after disconnecting; the interface returns to the
/// connection screen in every case.
pub fn disconnect_status(reply: DisconnectReply) -> (r: String)
    ensures
        r@ == match reply {
            DisconnectReply::Done => "Disconnected"@,
            DisconnectReply::Failed(e) => "Disconnected ("@ + user_message_of(e) + ")"@,
            DisconnectReply::Dropped => "Disconnected"@,
            DisconnectReply::TimedOut => "Disconnected (timeout)"@,
        },
{
    match reply {
        DisconnectReply::Done => String::from_str("Disconnected"),
        DisconnectReply::Failed(e) => {
            let mut s = String::from_str("Disconnected (");
            s.append(e.user_message().as_str());
            s.append(")");
            s
        },
        DisconnectReply::Dropped => String::from_str("Disconnected"),
        DisconnectReply::TimedOut => String::from_str("Disconnected (timeout)"),
    }
}

/// The notification after saving a message's metadata, and the saved message
/// when the save succeeded (the editor then closes).
pub fn metadata_save_notice<T>(reply: Option<Result<T, AppError>>) -> (r: (
    ToastKind,
    String,
    Option<T>,
))
    ensures
        match reply {
            Some(Ok(v)) => r.0 == ToastKind::Info && r.1@ == "Metadata saved"@ && r.2 == Some(v),
            Some(Err(e)) => r.0 == ToastKind::Error && r.1@ == "Save failed: "@ + user_message_of(e)
                && r.2 is None,
            None => r.0 == ToastKind::Warning && r.1@ == "Save cancelled"@ && r.2 is None,
        },
{
    match reply {
        Some(Ok(v)) => (ToastKind::Info, String::from_str("Metadata saved"), Some(v)),
        Some(Err(e)) => (
            ToastKind::Error,
            String::from_str("Save failed: ").concat(e.user_message().as_str()),
            None,
        ),
        None => (ToastKind::Warning, String::from_str("Save cancelled"), None),
    }
}

/// What the dream dialog does with the answer to its request.
#[derive(Clone, Debug, PartialEq, Eq)]
pub enum DreamResult {
    /// The dialog was closed meanwhile: only the busy state ends.
    Ignore,
    /// The dream was scheduled: notify and close the dialog.
    Scheduled,
    /// Show this error in the dialog.
    Failed(String),
}

/// What the dream dialog does with `reply`, given whether it is still open.
pub fn dream_result(dialog_open: bool, reply: Option<Result<(), AppError>>) -> (r: DreamResult)
    ensures
        !dialog_open ==> r == DreamResult::Ignore,
        dialog_open ==> match reply {
            Some(Ok(())) => r == DreamResult::Scheduled,
            Some(Err(e)) => r matches DreamResult::Failed(m) && m@ == user_message_of(e),
            None => r matches DreamResult::Failed(m) && m@ == "Channel closed"@,
        },
{
    if !dialog_open {
        return DreamResult::Ignore;
    }
    match reply {
        Some(Ok(())) => DreamResult::Scheduled,
        Some(Err(e)) => DreamResult::Failed(e.user_message()),
        None => DreamResult::Failed(String::from_str("Channel closed")),
    }
}

/// Why a semantic search of conclusions may not ask for `k` results: it must
/// ask for 1 to 100.
pub fn top_k_problem(k: u32) -> (r: Option<String>)
    ensures
        1 <= k <= 100 ==> r is None,
        !(1 <= k <= 100) ==> (r matches Some(m) && m@ == "top_k must be between 1 and 100, got "@
            + decimal_text(k as nat)),
{
    if 1 <= k && k <= 100 {
        None
    } else {
        Some(String::from_str("top_k must be between 1 and 100, got ").concat(
            decimal(k as u64).as_str(),
        ))
    }
}

/// Whether a deletion guarded by typing the id may go ahead: the typed text
/// is the id and no deletion is under way.
pub fn can_confirm_delete(typed: &str, id: &str, deleting: bool) -> (r: bool)
    ensures
        r == (typed@ == id@ && !deleting),
{
    !deleting && str_eq(typed, id)
}

/// Whether the workspace may be deleted: one is connected and its id was
/// typed.
pub fn can_delete_workspace(typed: &str, info: &Option<WorkspaceInfo>) -> (r: bool)
    ensures
        r == (info matches Some(i) && typed@ == i.id@),
{
    match info {
        Some(i) => str_eq(typed, i.id.as_str()),
        None => false,
    }
}

/// The state of the main window that a return to the connection screen sets.
#[derive(Clone, Debug)]
pub struct ShellReset {
    pub connection: ConnectionState,
    pub workspace: Option<WorkspaceInfo>,
    pub selection: Selection,
    pub section: InspectorSection,
    pub status: String,
}

/// Returns the window to the connection screen with the given status line:
/// disconnected, no workspace, nothing selected, the first section.
pub fn back_to_connection(status: String) -> (r: ShellReset)
    ensures
        r.connection == ConnectionState::Disconnected,
        r.workspace is None,
        r.selection == (Selection {
            peer_id: None,
            session_id: None,
            message_id: None,
            conclusion_id: None,
        }),
        r.section == InspectorSection::Peers,
        r.status == status,
{
    ShellReset {
        connection: ConnectionState::Disconnected,
        workspace: None,
        selection: Selection::new(None, None, None, None),
        section: InspectorSection::Peers,
        status,
    }
}

/// The window after the connected workspace was deleted: back to the
/// connection screen, with the status line "Workspace deleted".
pub fn after_workspace_deleted() -> (r: ShellReset)
    ensures
        r.connection == ConnectionState::Disconnected,
        r.workspace is None,
        r.selection == (Selection {
            peer_id: None,
            session_id: None,
            message_id: None,
            conclusion_id: None,
        }),
        r.section == InspectorSection::Peers,
        r.status@ == "Workspace deleted"@,
{
    back_to_connection(String::from_str("Workspace deleted"))
}

/// Whether the conclusions of a pair of peers may be listed, refreshed or
/// summarised: both ids are typed.
pub fn conclusion_pair_ready(observer_id: &str, observed_id: &str) -> (r: bool)
    ensures
        r == (observer_id@.len() > 0 && observed_id@.len() > 0),
{
    observer_id.unicode_len() > 0 && observed_id.unicode_len() > 0
}

/// Whether a semantic search of the pair's conclusions may be sent: a query
/// and both ids are typed.
pub fn conclusion_search_ready(query: &str, observer_id: &str, observed_id: &str) -> (r: bool)
    ensures
        r == (query@.len() > 0 && observer_id@.len() > 0 && observed_id@.len() > 0),
{
    query.unicode_len() > 0 && conclusion_pair_ready(observer_id, observed_id)
}

/// Whether the conclusion list shows its note on what to enter: neither id is
/// typed and nothing was asked yet.
pub fn conclusion_prompt_shown(observer_id: &str, observed_id: &str, asked: bool) -> (r: bool)
    ensures
        r == (observer_id@.len() == 0 && observed_id@.len() == 0 && !asked),
{
    observer_id.unicode_len() == 0 && observed_id.unicode_len() == 0 && !asked
}

} // verus!
