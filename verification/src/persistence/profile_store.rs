//! Connection profiles and the rules a profile must meet before use.
use vstd::prelude::*;
use vstd::string::StringExecFns;
use crate::error::{AppError, AppResult};
use crate::text::{
    char_is_ascii_alphanumeric, contains, has_infix, has_prefix, is_ascii_alphanumeric,
    lemma_trim_idempotent, starts_with, to_uppercase, trim, trim_spec, uppercase_of,
};

verus! {

/// How to reach one Honcho workspace.
#[derive(Debug, Clone, PartialEq, Eq)]
pub struct ConnectionProfile {
    pub id: String,
    pub name: String,
    pub base_url: String,
    pub workspace_id: String,
    pub uses_api_key: bool,
    pub timeout_secs: u64,
    pub max_retries: u32,
}

/// The request timeout of a profile that does not set one, in seconds.
pub fn default_timeout() -> (r: u64)
    ensures
        r == 120,
{
    120
}

/// The number of retries of a profile that does not set one.
pub fn default_retries() -> (r: u32)
    ensures
        r == 2,
{
    2
}

/// A lower-case hexadecimal digit.
pub open spec fn is_lower_hex(c: char) -> bool {
    ('0' <= c && c <= '9') || ('a' <= c && c <= 'f')
}

/// The text of a random (version 4) UUID in hyphenated lower-case form: 36
/// characters, hyphens at 8, 13, 18 and 23, hex digits elsewhere, the version
/// digit `4` at 14 and the variant digit (`8`, `9`, `a` or `b`) at 19.
pub open spec fn is_uuid_v4_text(s: Seq<char>) -> bool {
    &&& s.len() == 36
    &&& forall|i: int|
        0 <= i < 36 ==> if i == 8 || i == 13 || i == 18 || i == 23 {
            #[trigger] s[i] == '-'
        } else {
            is_lower_hex(s[i])
        }
    &&& s[14] == '4'
    &&& (s[19] == '8' || s[19] == '9' || s[19] == 'a' || s[19] == 'b')
}

/// `Uuid::new_v4` written as text by its `Display`: a fresh random identifier
/// in the hyphenated lower-case form, with the version and variant bits of a
/// random UUID. Which identifier comes out is left open: it is random.
#[verifier::external_body]
fn new_profile_id() -> (r: String)
    ensures
        is_uuid_v4_text(r@),
{
    uuid::Uuid::new_v4().to_string()
}

impl ConnectionProfile {
    /// A profile with a fresh random id, the given fields and the default
    /// timeout and retries.
    pub fn new(name: String, base_url: String, workspace_id: String, uses_api_key: bool) -> (r:
        Self)
        ensures
            is_uuid_v4_text(r.id@),
            r.name == name,
            r.base_url == base_url,
            r.workspace_id == workspace_id,
            r.uses_api_key == uses_api_key,
            r.timeout_secs == 120,
            r.max_retries == 2,
    {
        Self {
            id: new_profile_id(),
            name,
            base_url,
            workspace_id,
            uses_api_key,
            timeout_secs: default_timeout(),
            max_retries: default_retries(),
        }
    }
}

/// The saved profiles and which of them is active.
#[derive(Debug, Clone, PartialEq, Eq)]
pub struct ProfileStore {
    pub profiles: Vec<ConnectionProfile>,
    pub active_profile_id: Option<String>,
}

impl Default for ProfileStore {
    fn default() -> (r: Self)
        ensures
            r.profiles@.len() == 0,
            r.active_profile_id is None,
    {
        ProfileStore { profiles: Vec::new(), active_profile_id: None }
    }
}

/// The characters a workspace id may hold: ASCII letters, digits, `_` and `-`.
pub open spec fn workspace_id_char(c: char) -> bool {
    is_ascii_alphanumeric(c) || c == '_' || c == '-'
}

/// Why a workspace id is refused, or `None` when it is accepted: it must be
/// 1 to 512 bytes long and hold only ASCII letters, digits, `_` and `-`.
pub open spec fn workspace_id_problem(id: Seq<char>) -> Option<Seq<char>> {
    if id.len() == 0 || vstd::utf8::encode_utf8(id).len() > 512 {
        Some("workspace_id must be 1\u{2013}512 characters"@)
    } else if !(forall|i: int| 0 <= i < id.len() ==> workspace_id_char(#[trigger] id[i])) {
        Some("workspace_id must contain only ASCII alphanumeric, underscore, or hyphen"@)
    } else {
        None
    }
}

/// Why a profile with these (already trimmed) fields is refused, or `None` when
/// it is accepted. The rules are checked in this order: a name, an `http://` or
/// `https://` base URL, no API key in the URL (compared in upper case), a valid
/// workspace id, a positive timeout.
pub open spec fn profile_problem(
    name: Seq<char>,
    base_url: Seq<char>,
    workspace_id: Seq<char>,
    timeout_secs: u64,
) -> Option<Seq<char>> {
    let upper = uppercase_of(base_url);
    if name.len() == 0 {
        Some("profile name must not be empty"@)
    } else if !(has_prefix(base_url, "http://"@) || has_prefix(base_url, "https://"@)) {
        Some("base URL must start with http:// or https://"@)
    } else if has_infix(upper, "HONCHO_API_KEY"@) || has_infix(upper, "API_KEY="@) {
        Some("base URL must not contain an API key"@)
    } else if workspace_id_problem(workspace_id) is Some {
        workspace_id_problem(workspace_id)
    } else if timeout_secs == 0 {
        Some("timeout must be > 0"@)
    } else {
        None
    }
}

/// The outcome of a validation: `Ok` when there is no problem, else the
/// validation error that carries the problem's text.
pub open spec fn validation_outcome(r: AppResult<()>, problem: Option<Seq<char>>) -> bool {
    match r {
        Ok(()) => problem is None,
        Err(e) => e matches AppError::Validation(msg) && problem == Some(msg@),
    }
}

/// Checks a workspace id.
pub fn validate_workspace_id(id: &str) -> (r: AppResult<()>)
    ensures
        validation_outcome(r, workspace_id_problem(id@)),
{
    let byte_len = id.as_bytes().len();
    if id.is_empty() || byte_len > 512 {
        return Err(
            AppError::Validation(String::from_str("workspace_id must be 1\u{2013}512 characters")),
        );
    }
    let chars = crate::text::chars_of(id);
    let n = chars.len();
    let mut i: usize = 0;
    while i < n
        invariant
            n == id@.len(),
            chars@ == id@,
            id@.len() > 0,
            vstd::utf8::encode_utf8(id@).len() <= 512,
            i <= n,
            forall|k: int| 0 <= k < i ==> workspace_id_char(#[trigger] id@[k]),
        decreases n - i,
    {
        let c = chars[i];
        if !(char_is_ascii_alphanumeric(c) || c == '_' || c == '-') {
            assert(!workspace_id_char(id@[i as int]));
            return Err(
                AppError::Validation(
                    String::from_str(
                        "workspace_id must contain only ASCII alphanumeric, underscore, or hyphen",
                    ),
                ),
            );
        }
        i = i + 1;
    }
    Ok(())
}

/// Normalizes a profile (trims its name, base URL and workspace id in place)
/// and checks it.
pub fn validate_profile(profile: &mut ConnectionProfile) -> (r: AppResult<()>)
    ensures
        final(profile).name@ == trim_spec(old(profile).name@),
        final(profile).base_url@ == trim_spec(old(profile).base_url@),
        final(profile).workspace_id@ == trim_spec(old(profile).workspace_id@),
        final(profile).id == old(profile).id,
        final(profile).uses_api_key == old(profile).uses_api_key,
        final(profile).timeout_secs == old(profile).timeout_secs,
        final(profile).max_retries == old(profile).max_retries,
        validation_outcome(
            r,
            profile_problem(
                final(profile).name@,
                final(profile).base_url@,
                final(profile).workspace_id@,
                final(profile).timeout_secs,
            ),
        ),
{
    profile.name = String::from_str(trim(profile.name.as_str()));
    profile.base_url = String::from_str(trim(profile.base_url.as_str()));
    profile.workspace_id = String::from_str(trim(profile.workspace_id.as_str()));

    if profile.name.as_str().is_empty() {
        return Err(AppError::Validation(String::from_str("profile name must not be empty")));
    }
    if !(starts_with(profile.base_url.as_str(), "http://") || starts_with(
        profile.base_url.as_str(),
        "https://",
    )) {
        return Err(
            AppError::Validation(String::from_str("base URL must start with http:// or https://")),
        );
    }
    let upper = to_uppercase(profile.base_url.as_str());
    if contains(upper.as_str(), "HONCHO_API_KEY") || contains(upper.as_str(), "API_KEY=") {
        return Err(AppError::Validation(String::from_str("base URL must not contain an API key")));
    }
    let ws = validate_workspace_id(profile.workspace_id.as_str());
    if ws.is_err() {
        return ws;
    }
    if profile.timeout_secs == 0 {
        return Err(AppError::Validation(String::from_str("timeout must be > 0")));
    }
    Ok(())
}

/// A profile is accepted only with a name, an `http://` or `https://` base
/// URL, a workspace id of allowed characters, and a positive timeout.
pub proof fn lemma_accepted_profile_is_well_formed(
    name: Seq<char>,
    base_url: Seq<char>,
    workspace_id: Seq<char>,
    timeout_secs: u64,
)
    requires
        profile_problem(name, base_url, workspace_id, timeout_secs) is None,
    ensures
        name.len() > 0,
        has_prefix(base_url, "http://"@) || has_prefix(base_url, "https://"@),
        !has_infix(uppercase_of(base_url), "API_KEY="@),
        workspace_id.len() > 0,
        forall|i: int| 0 <= i < workspace_id.len() ==> workspace_id_char(#[trigger] workspace_id[i]),
        timeout_secs > 0,
{
}

/// A workspace id is accepted exactly when it holds 1 to 512 characters, each
/// an ASCII letter of either case, an ASCII digit, `_` or `-`. An id of 1 to
/// 512 bytes that holds any other character is refused for its characters.
pub proof fn lemma_workspace_id_rule(id: Seq<char>)
    ensures
        workspace_id_problem(id) is None <==> {
            &&& 0 < id.len() <= 512
            &&& forall|i: int|
                0 <= i < id.len() ==> {
                    let c = #[trigger] id[i];
                    ('a' <= c && c <= 'z') || ('A' <= c && c <= 'Z') || ('0' <= c && c <= '9')
                        || c == '_' || c == '-'
                }
        },
        0 < id.len() && vstd::utf8::encode_utf8(id).len() <= 512 && (exists|i: int|
            0 <= i < id.len() && {
                let c = #[trigger] id[i];
                !(('a' <= c && c <= 'z') || ('A' <= c && c <= 'Z') || ('0' <= c && c <= '9')
                    || c == '_' || c == '-')
            }) ==> workspace_id_problem(id) == Some(
            "workspace_id must contain only ASCII alphanumeric, underscore, or hyphen"@,
        ),
{
    if forall|i: int| 0 <= i < id.len() ==> workspace_id_char(#[trigger] id[i]) {
        assert(vstd::utf8::is_ascii_chars(id));
        vstd::utf8::is_ascii_chars_encode_utf8(id);
    }
}

/// Validating is idempotent: the trimmed fields of a validated profile are
/// left as they are by validating it again, with the same outcome.
pub proof fn lemma_validation_idempotent(
    name: Seq<char>,
    base_url: Seq<char>,
    workspace_id: Seq<char>,
    timeout_secs: u64,
)
    ensures
        trim_spec(trim_spec(name)) == trim_spec(name),
        trim_spec(trim_spec(base_url)) == trim_spec(base_url),
        trim_spec(trim_spec(workspace_id)) == trim_spec(workspace_id),
        profile_problem(
            trim_spec(trim_spec(name)),
            trim_spec(trim_spec(base_url)),
            trim_spec(trim_spec(workspace_id)),
            timeout_secs,
        ) == profile_problem(
            trim_spec(name),
            trim_spec(base_url),
            trim_spec(workspace_id),
            timeout_secs,
        ),
{
    lemma_trim_idempotent(name);
    lemma_trim_idempotent(base_url);
    lemma_trim_idempotent(workspace_id);
}

} // verus!
