//! The connection screen: which profile a filled-in form connects with, and
//! what the screen shows for the answer.
use vstd::prelude::*;
use vstd::string::StringExecFns;

use crate::domain::WorkspaceInfo;
use crate::error::{code_of, user_message_of, AppError};
use crate::persistence::profile_store::{
    is_uuid_v4_text, lemma_validation_idempotent, profile_problem, validate_profile, ConnectionProfile,
};
use crate::state::connection::ConnectionState;
use crate::text::{has_prefix, starts_with, trim, trim_spec};

verus! {

/// What pressing Connect does.
#[derive(Clone, Debug)]
pub enum ConnectStep {
    /// Nothing is sent; the message says what is wrong with the form.
    Refuse(String),
    /// Connect with this profile and API key.
    Connect { profile: ConnectionProfile, api_key: Option<String> },
}

/// The message for a base URL that is not a web address.
pub open spec fn bad_scheme_message() -> Seq<char> {
    "Base URL must start with http:// or https://"@
}

/// `r` is what pressing Connect does with the form's fields. The fields are
/// trimmed; a base URL must start with `http://` or `https://`; the profile,
/// named `Default`, must pass validation; the API key is sent only when the
/// box is ticked and the key is not blank.
pub open spec fn is_connect_step(
    r: ConnectStep,
    base_url: Seq<char>,
    workspace_id: Seq<char>,
    api_key: Seq<char>,
    use_key: bool,
) -> bool {
    let base = trim_spec(base_url);
    let ws = trim_spec(workspace_id);
    let key = trim_spec(api_key);
    if !(has_prefix(base, "http://"@) || has_prefix(base, "https://"@)) {
        r matches ConnectStep::Refuse(m) && m@ == bad_scheme_message()
    } else {
        match profile_problem("Default"@, base, ws, 120) {
            Some(p) => r matches ConnectStep::Refuse(m) && m@ == p,
            None => r matches ConnectStep::Connect { profile, api_key: k } && {
                &&& is_uuid_v4_text(profile.id@)
                &&& profile.name@ == "Default"@
                &&& profile.base_url@ == base
                &&& profile.workspace_id@ == ws
                &&& profile.uses_api_key == use_key
                &&& profile.timeout_secs == 120
                &&& profile.max_retries == 2
                &&& if use_key && key.len() > 0 {
                    k matches Some(s) && s@ == key
                } else {
                    k is None
                }
            },
        }
    }
}

/// What pressing Connect does with the form's fields.
pub fn prepare_connect(base_url: &str, workspace_id: &str, api_key: &str, use_key: bool) -> (r:
    ConnectStep)
    ensures
        is_connect_step(r, base_url@, workspace_id@, api_key@, use_key),
{
    let base = trim(base_url);
    let ws = trim(workspace_id);
    let key = trim(api_key);
    if !(starts_with(base, "http://") || starts_with(base, "https://")) {
        return ConnectStep::Refuse(String::from_str("Base URL must start with http:// or https://"));
    }
    let mut profile = ConnectionProfile::new(
        String::from_str("Default"),
        String::from_str(base),
        String::from_str(ws),
        use_key,
    );
    proof {
        reveal_strlit("Default");
        lemma_validation_idempotent("Default"@, base_url@, workspace_id@, 120);
        assert(trim_spec("Default"@) == "Default"@);
    }
    match validate_profile(&mut profile) {
        Err(e) => {
            let m = e.user_message();
            ConnectStep::Refuse(m)
        },
        Ok(()) => {
            let k = if use_key && key.unicode_len() > 0 {
                Some(String::from_str(key))
            } else {
                None
            };
            ConnectStep::Connect { profile, api_key: k }
        },
    }
}

/// What the screen shows once the connection attempt is answered: the new
/// state of the connection, the status line, and the workspace reached.
/// `None` means that the answer never came.
pub fn connect_outcome(reply: Option<Result<WorkspaceInfo, AppError>>) -> (r: (
    ConnectionState,
    String,
    Option<WorkspaceInfo>,
))
    ensures
        match reply {
            Some(Ok(info)) => r.0 == ConnectionState::Connected && r.1@ == "Connected to "@
                + info.base_url@ && r.2 == Some(info),
            Some(Err(e)) => (r.0 matches ConnectionState::Failed { code, message, retryable }
                && code@ == code_of(e) && message@ == user_message_of(e) && retryable == (e matches AppError::Honcho(
                f,
            ) && f.retryable)) && r.1@ == "Error: "@ + user_message_of(e) && r.2 is None,
            None => (r.0 matches ConnectionState::Failed { code, message, retryable } && code@
                == "channel_closed"@ && message@ == "Request was canceled"@ && !retryable) && r.1@
                == "Error: Request was canceled"@ && r.2 is None,
        },
{
    match reply {
        Some(Ok(info)) => {
            let status = String::from_str("Connected to ").concat(info.base_url.as_str());
            (ConnectionState::Connected, status, Some(info))
        },
        Some(Err(e)) => {
            let message = e.user_message();
            let status = String::from_str("Error: ").concat(message.as_str());
            (
                ConnectionState::Failed {
                    code: String::from_str(e.code()),
                    message,
                    retryable: e.is_retryable(),
                },
                status,
                None,
            )
        },
        None => (
            ConnectionState::Failed {
                code: String::from_str("channel_closed"),
                message: String::from_str("Request was canceled"),
                retryable: false,
            },
            String::from_str("Error: Request was canceled"),
            None,
        ),
    }
}

} // verus!
