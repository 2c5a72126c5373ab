//! Upload rules: which MIME types may be uploaded, the MIME type guessed from a
//! file extension, and the sources a file can be read from.
use vstd::prelude::*;
use vstd::string::StrSliceExecFns;
use crate::text::{
    ascii_lower, has_prefix, is_white_space, lemma_trim_idempotent, str_eq, starts_with,
    to_ascii_lowercase, trim, trim_end_spec, trim_spec, trim_start_spec,
};

verus! {

/// Human-readable list of accepted file types for UI display.
pub const ACCEPTED_TYPES_DISPLAY: &'static str =
    "text/*, application/pdf, application/json, image/*, audio/*, video/*";

/// The upload policy: after trimming, `text/*`, `image/*`, `audio/*`, `video/*`,
/// `application/pdf` and `application/json` are accepted, nothing else.
pub open spec fn allowed_mime(mime: Seq<char>) -> bool {
    let t = trim_spec(mime);
    &&& t.len() > 0
    &&& {
        ||| has_prefix(t, "text/"@)
        ||| has_prefix(t, "image/"@)
        ||| has_prefix(t, "audio/"@)
        ||| has_prefix(t, "video/"@)
        ||| t == "application/pdf"@
        ||| t == "application/json"@
    }
}

/// Returns `true` when `mime` matches the allowed upload types.
///
/// Allowed:
/// - `text/*`
/// - `application/pdf`
/// - `application/json`
/// - `image/*`
/// - `audio/*`
/// - `video/*`
pub fn is_allowed_mime_type(mime: &str) -> (r: bool)
    ensures
        r == allowed_mime(mime@),
{
    let mime = trim(mime);
    if mime.is_empty() {
        return false;
    }
    if starts_with(mime, "text/") || starts_with(mime, "image/") || starts_with(mime, "audio/")
        || starts_with(mime, "video/") {
        return true;
    }
    str_eq(mime, "application/pdf") || str_eq(mime, "application/json")
}

/// The MIME type for a lower-case file extension, by the upload table.
pub open spec fn mime_for_lower_ext(e: Seq<char>) -> Option<Seq<char>> {
    if e == "txt"@ || e == "csv"@ || e == "tsv"@ || e == "log"@ || e == "md"@ ||
        e == "markdown"@ || e == "html"@ || e == "htm"@ || e == "xml"@ || e == "yaml"@ ||
        e == "yml"@ || e == "toml"@ || e == "ini"@ || e == "cfg"@ || e == "conf"@ ||
        e == "sh"@ || e == "bash"@ || e == "zsh"@ || e == "fish"@ || e == "ps1"@ ||
        e == "bat"@ || e == "cmd"@ || e == "py"@ || e == "rb"@ || e == "js"@ || e == "jsx"@ ||
        e == "tsx"@ || e == "rs"@ || e == "go"@ || e == "java"@ || e == "c"@ || e == "h"@ ||
        e == "cpp"@ || e == "hpp"@ || e == "cs"@ || e == "swift"@ || e == "kt"@ ||
        e == "scala"@ || e == "clj"@ || e == "lua"@ || e == "pl"@ || e == "pm"@ || e == "r"@ ||
        e == "sql"@ || e == "css"@ || e == "scss"@ || e == "less"@ || e == "graphql"@ ||
        e == "gql"@ || e == "proto"@ || e == "tf"@ || e == "hcl"@ || e == "dockerfile"@ ||
        e == "makefile"@ || e == "cmake"@ || e == "gradle"@ || e == "properties"@ ||
        e == "env"@ || e == "gitignore"@ || e == "editorconfig"@ || e == "license"@ ||
        e == "readme"@ {
        Some("text/plain"@)
    } else if e == "ts"@ {
        Some("text/plain"@)
    } else if e == "json"@ || e == "jsonl"@ {
        Some("application/json"@)
    } else if e == "pdf"@ {
        Some("application/pdf"@)
    } else if e == "png"@ {
        Some("image/png"@)
    } else if e == "jpg"@ || e == "jpeg"@ {
        Some("image/jpeg"@)
    } else if e == "gif"@ {
        Some("image/gif"@)
    } else if e == "webp"@ {
        Some("image/webp"@)
    } else if e == "svg"@ || e == "svgz"@ {
        Some("image/svg+xml"@)
    } else if e == "bmp"@ {
        Some("image/bmp"@)
    } else if e == "ico"@ {
        Some("image/x-icon"@)
    } else if e == "tiff"@ || e == "tif"@ {
        Some("image/tiff"@)
    } else if e == "avif"@ {
        Some("image/avif"@)
    } else if e == "heic"@ || e == "heif"@ {
        Some("image/heif"@)
    } else if e == "mp3"@ {
        Some("audio/mpeg"@)
    } else if e == "wav"@ {
        Some("audio/wav"@)
    } else if e == "ogg"@ {
        Some("audio/ogg"@)
    } else if e == "flac"@ {
        Some("audio/flac"@)
    } else if e == "aac"@ {
        Some("audio/aac"@)
    } else if e == "m4a"@ {
        Some("audio/mp4"@)
    } else if e == "opus"@ {
        Some("audio/opus"@)
    } else if e == "wma"@ {
        Some("audio/x-ms-wma"@)
    } else if e == "mid"@ || e == "midi"@ {
        Some("audio/midi"@)
    } else if e == "mp4"@ {
        Some("video/mp4"@)
    } else if e == "webm"@ {
        Some("video/webm"@)
    } else if e == "mkv"@ {
        Some("video/x-matroska"@)
    } else if e == "avi"@ {
        Some("video/x-msvideo"@)
    } else if e == "mov"@ {
        Some("video/quicktime"@)
    } else if e == "wmv"@ {
        Some("video/x-ms-wmv"@)
    } else if e == "flv"@ {
        Some("video/x-flv"@)
    } else if e == "ogv"@ {
        Some("video/ogg"@)
    } else if e == "m2ts"@ || e == "mts"@ {
        Some("video/mp2t"@)
    } else {
        None
    }
}

/// The MIME type for a file extension in any ASCII case.
pub open spec fn mime_for_ext(ext: Seq<char>) -> Option<Seq<char>> {
    mime_for_lower_ext(ascii_lower(ext))
}

/// The view of an optional text.
pub open spec fn opt_text(o: Option<String>) -> Option<Seq<char>> {
    match o {
        Some(s) => Some(s@),
        None => None,
    }
}

fn lookup_lower_ext(e: &str) -> (r: Option<&'static str>)
    ensures
        match r {
            Some(m) => mime_for_lower_ext(e@) == Some(m@),
            None => mime_for_lower_ext(e@) is None,
        },
{
    if str_eq(e, "txt") || str_eq(e, "csv") || str_eq(e, "tsv") || str_eq(e, "log") ||
        str_eq(e, "md") || str_eq(e, "markdown") || str_eq(e, "html") || str_eq(e, "htm") ||
        str_eq(e, "xml") || str_eq(e, "yaml") || str_eq(e, "yml") || str_eq(e, "toml") ||
        str_eq(e, "ini") || str_eq(e, "cfg") || str_eq(e, "conf") || str_eq(e, "sh") ||
        str_eq(e, "bash") || str_eq(e, "zsh") || str_eq(e, "fish") || str_eq(e, "ps1") ||
        str_eq(e, "bat") || str_eq(e, "cmd") || str_eq(e, "py") || str_eq(e, "rb") ||
        str_eq(e, "js") || str_eq(e, "jsx") || str_eq(e, "tsx") || str_eq(e, "rs") ||
        str_eq(e, "go") || str_eq(e, "java") || str_eq(e, "c") || str_eq(e, "h") ||
        str_eq(e, "cpp") || str_eq(e, "hpp") || str_eq(e, "cs") || str_eq(e, "swift") ||
        str_eq(e, "kt") || str_eq(e, "scala") || str_eq(e, "clj") || str_eq(e, "lua") ||
        str_eq(e, "pl") || str_eq(e, "pm") || str_eq(e, "r") || str_eq(e, "sql") ||
        str_eq(e, "css") || str_eq(e, "scss") || str_eq(e, "less") || str_eq(e, "graphql") ||
        str_eq(e, "gql") || str_eq(e, "proto") || str_eq(e, "tf") || str_eq(e, "hcl") ||
        str_eq(e, "dockerfile") || str_eq(e, "makefile") || str_eq(e, "cmake") ||
        str_eq(e, "gradle") || str_eq(e, "properties") || str_eq(e, "env") ||
        str_eq(e, "gitignore") || str_eq(e, "editorconfig") || str_eq(e, "license") ||
        str_eq(e, "readme") {
        Some("text/plain")
    } else if str_eq(e, "ts") {
        Some("text/plain")
    } else if str_eq(e, "json") || str_eq(e, "jsonl") {
        Some("application/json")
    } else if str_eq(e, "pdf") {
        Some("application/pdf")
    } else if str_eq(e, "png") {
        Some("image/png")
    } else if str_eq(e, "jpg") || str_eq(e, "jpeg") {
        Some("image/jpeg")
    } else if str_eq(e, "gif") {
        Some("image/gif")
    } else if str_eq(e, "webp") {
        Some("image/webp")
    } else if str_eq(e, "svg") || str_eq(e, "svgz") {
        Some("image/svg+xml")
    } else if str_eq(e, "bmp") {
        Some("image/bmp")
    } else if str_eq(e, "ico") {
        Some("image/x-icon")
    } else if str_eq(e, "tiff") || str_eq(e, "tif") {
        Some("image/tiff")
    } else if str_eq(e, "avif") {
        Some("image/avif")
    } else if str_eq(e, "heic") || str_eq(e, "heif") {
        Some("image/heif")
    } else if str_eq(e, "mp3") {
        Some("audio/mpeg")
    } else if str_eq(e, "wav") {
        Some("audio/wav")
    } else if str_eq(e, "ogg") {
        Some("audio/ogg")
    } else if str_eq(e, "flac") {
        Some("audio/flac")
    } else if str_eq(e, "aac") {
        Some("audio/aac")
    } else if str_eq(e, "m4a") {
        Some("audio/mp4")
    } else if str_eq(e, "opus") {
        Some("audio/opus")
    } else if str_eq(e, "wma") {
        Some("audio/x-ms-wma")
    } else if str_eq(e, "mid") || str_eq(e, "midi") {
        Some("audio/midi")
    } else if str_eq(e, "mp4") {
        Some("video/mp4")
    } else if str_eq(e, "webm") {
        Some("video/webm")
    } else if str_eq(e, "mkv") {
        Some("video/x-matroska")
    } else if str_eq(e, "avi") {
        Some("video/x-msvideo")
    } else if str_eq(e, "mov") {
        Some("video/quicktime")
    } else if str_eq(e, "wmv") {
        Some("video/x-ms-wmv")
    } else if str_eq(e, "flv") {
        Some("video/x-flv")
    } else if str_eq(e, "ogv") {
        Some("video/ogg")
    } else if str_eq(e, "m2ts") || str_eq(e, "mts") {
        Some("video/mp2t")
    } else {
        None
    }
}

/// The MIME type guessed from a file extension (compared case-insensitively),
/// or `None` when the extension is not in the table.
pub fn mime_for_extension(ext: &str) -> (r: Option<String>)
    ensures
        opt_text(r) == mime_for_ext(ext@),
{
    let lower = to_ascii_lowercase(ext);
    match lookup_lower_ext(lower.as_str()) {
        Some(m) => Some(m.to_owned()),
        None => None,
    }
}

/// Whether `c` separates the components of a path on a platform whose main
/// separator is `main`: `/` always, and the main separator too (`\` on
/// Windows, `/` elsewhere).
pub open spec fn is_sep(c: char, main: char) -> bool {
    c == '/' || c == main
}

/// Index just after the last separator of `s` (0 when there is none).
pub open spec fn component_start(s: Seq<char>, main: char) -> int
    decreases s.len(),
{
    if s.len() == 0 {
        0
    } else if is_sep(s.last(), main) {
        s.len() as int
    } else {
        component_start(s.drop_last(), main)
    }
}

/// Index of the last `.` of `s`, or -1 when there is none.
pub open spec fn last_dot(s: Seq<char>) -> int
    decreases s.len(),
{
    if s.len() == 0 {
        -1
    } else if s.last() == '.' {
        s.len() - 1
    } else {
        last_dot(s.drop_last())
    }
}

pub proof fn lemma_component_start_bound(s: Seq<char>, main: char)
    ensures
        0 <= component_start(s, main) <= s.len(),
        s.len() > 0 && !is_sep(s.last(), main) ==> component_start(s, main) < s.len(),
        forall|i: int| component_start(s, main) <= i < s.len() ==> !is_sep(#[trigger] s[i], main),
        component_start(s, main) > 0 ==> is_sep(s[component_start(s, main) - 1], main),
    decreases s.len(),
{
    if s.len() > 0 && !is_sep(s.last(), main) {
        lemma_component_start_bound(s.drop_last(), main);
        assert forall|i: int| component_start(s, main) <= i < s.len() implies !is_sep(
            #[trigger] s[i],
            main,
        ) by {
            if i < s.len() - 1 {
                assert(s.drop_last()[i] == s[i]);
            }
        }
    }
}

pub proof fn lemma_last_dot_bound(s: Seq<char>)
    ensures
        -1 <= last_dot(s) < s.len(),
        last_dot(s) >= 0 ==> s[last_dot(s)] == '.',
        forall|i: int| last_dot(s) < i < s.len() ==> s[i] != '.',
    decreases s.len(),
{
    if s.len() > 0 && s.last() != '.' {
        lemma_last_dot_bound(s.drop_last());
        assert forall|i: int| last_dot(s) < i < s.len() implies s[i] != '.' by {
            if i < s.len() - 1 {
                assert(s.drop_last()[i] == s[i]);
            }
        }
    }
}

/// The final normal component of a path without prefix, as std's
/// `Path::file_name` reads it on a platform whose main separator is `main`:
/// trailing separators and `.` components are skipped, and a path that ends in
/// `..` (or has no normal component) has none.
pub open spec fn last_component(s: Seq<char>, main: char) -> Option<Seq<char>>
    decreases s.len(),
{
    if s.len() == 0 {
        None
    } else if is_sep(s.last(), main) {
        last_component(s.drop_last(), main)
    } else {
        let k = component_start(s, main);
        let comp = s.subrange(k, s.len() as int);
        proof {
            lemma_component_start_bound(s, main);
        }
        if comp == seq!['.'] {
            last_component(s.subrange(0, k), main)
        } else if comp == seq!['.', '.'] {
            None
        } else {
            Some(comp)
        }
    }
}

/// An ASCII letter.
pub open spec fn is_ascii_letter(c: char) -> bool {
    ('a' <= c && c <= 'z') || ('A' <= c && c <= 'Z')
}

/// `s` begins with a drive, such as `C:`.
pub open spec fn has_drive(s: Seq<char>) -> bool {
    s.len() >= 2 && s[1] == ':' && is_ascii_letter(s[0])
}

/// The length of the prefix of a path that is not one of its components: a
/// drive such as `C:` on Windows (where the main separator is `\`), nothing
/// elsewhere. UNC, device and verbatim prefixes are not read apart.
pub open spec fn prefix_len(s: Seq<char>, main: char) -> int {
    if main == '\\' && has_drive(s) {
        2
    } else {
        0
    }
}

/// The file name of a path, as std's `Path::file_name` reads it on a platform
/// whose main separator is `main`: the last normal component after the
/// prefix.
pub open spec fn file_name_of(s: Seq<char>, main: char) -> Option<Seq<char>> {
    last_component(s.subrange(prefix_len(s, main), s.len() as int), main)
}

/// The extension of a file name, as std's `Path::extension` reads it: the text
/// after the last `.`, none when there is no `.` or the only `.` leads the name.
pub open spec fn extension_of_name(name: Seq<char>) -> Option<Seq<char>> {
    let d = last_dot(name);
    if name == seq!['.', '.'] || d <= 0 {
        None
    } else {
        Some(name.subrange(d + 1, name.len() as int))
    }
}

/// The extension of a path: that of its file name.
pub open spec fn extension_of_path(path: Seq<char>, main: char) -> Option<Seq<char>> {
    match file_name_of(path, main) {
        Some(n) => extension_of_name(n),
        None => None,
    }
}

/// Whether `c` separates path components where `main` is the main separator.
fn separates(c: char, main: char) -> (r: bool)
    ensures
        r == is_sep(c, main),
{
    c == '/' || c == main
}

/// The last normal component of a path without prefix (see
/// `last_component`).
fn last_component_in(path: &str, main: char) -> (r: Option<&str>)
    ensures
        match r {
            Some(n) => last_component(path@, main) == Some(n@),
            None => last_component(path@, main) is None,
        },
{
    let n = path.unicode_len();
    let mut end: usize = n;
    assert(path@.subrange(0, n as int) =~= path@);
    loop
        invariant
            n == path@.len(),
            end <= n,
            last_component(path@, main) == last_component(path@.subrange(0, end as int), main),
        decreases end,
    {
        let ghost end0 = end;
        while end > 0 && separates(path.get_char(end - 1), main)
            invariant
                n == path@.len(),
                end <= end0 <= n,
                last_component(path@, main) == last_component(path@.subrange(0, end as int), main),
            decreases end,
        {
            assert(path@.subrange(0, end as int).drop_last() =~= path@.subrange(
                0,
                end - 1,
            ));
            end = end - 1;
        }
        if end == 0 {
            return None;
        }
        let ghost pre = path@.subrange(0, end as int);
        let mut k: usize = end;
        while k > 0 && !separates(path.get_char(k - 1), main)
            invariant
                n == path@.len(),
                k <= end <= end0 <= n,
                end > 0,
                !is_sep(path@[end - 1], main),
                k == end || k < end,
                pre == path@.subrange(0, end as int),
                component_start(pre, main) == component_start(path@.subrange(0, k as int), main),
                forall|i: int| k <= i < end ==> !is_sep(#[trigger] path@[i], main),
            decreases k,
        {
            assert(path@.subrange(0, k as int).drop_last() =~= path@.subrange(0, k - 1));
            k = k - 1;
        }
        proof {
            lemma_component_start_bound(pre, main);
            assert(component_start(pre, main) == k);
            assert(pre.subrange(0, k as int) =~= path@.subrange(0, k as int));
            assert(pre.subrange(k as int, end as int) =~= path@.subrange(k as int, end as int));
        }
        assert(k < end) by {
            if k == end {
                assert(!is_sep(path@[k - 1], main));
            }
        }
        let comp = path.substring_char(k, end);
        if str_eq(comp, ".") {
            proof {
                reveal_strlit(".");
                assert("."@ =~= seq!['.']);
            }
            end = k;
        } else if str_eq(comp, "..") {
            proof {
                reveal_strlit("..");
                assert(".."@ =~= seq!['.', '.']);
            }
            return None;
        } else {
            proof {
                reveal_strlit(".");
                reveal_strlit("..");
                assert("."@ =~= seq!['.']);
                assert(".."@ =~= seq!['.', '.']);
            }
            return Some(comp);
        }
    }
}

/// The file name of a path on a platform whose main separator is `main` (see
/// `file_name_of`).
pub fn file_name_with(path: &str, main: char) -> (r: Option<&str>)
    ensures
        match r {
            Some(n) => file_name_of(path@, main) == Some(n@),
            None => file_name_of(path@, main) is None,
        },
{
    let n = path.unicode_len();
    let drive = main == '\\' && n >= 2 && path.get_char(1) == ':' && {
        let c = path.get_char(0);
        ('a' <= c && c <= 'z') || ('A' <= c && c <= 'Z')
    };
    let start: usize = if drive {
        2
    } else {
        0
    };
    assert(start == prefix_len(path@, main));
    let rest = path.substring_char(start, n);
    last_component_in(rest, main)
}

/// A file name as text, or none.
pub open spec fn opt_str(r: Option<&str>) -> Option<Seq<char>> {
    match r {
        Some(n) => Some(n@),
        None => None,
    }
}

/// `s` holds no `c`.
pub open spec fn lacks(s: Seq<char>, c: char) -> bool {
    forall|i: int| 0 <= i < s.len() ==> s[i] != c
}

proof fn lemma_component_start_without(s: Seq<char>, main: char)
    requires
        lacks(s, main),
    ensures
        component_start(s, main) == component_start(s, '/'),
    decreases s.len(),
{
    if s.len() > 0 {
        assert(lacks(s.drop_last(), main)) by {
            assert forall|i: int| 0 <= i < s.drop_last().len() implies s.drop_last()[i] != main by {
                assert(s.drop_last()[i] == s[i]);
            }
        }
        lemma_component_start_without(s.drop_last(), main);
    }
}

proof fn lemma_last_component_without_main(s: Seq<char>, main: char)
    requires
        lacks(s, main),
    ensures
        last_component(s, main) == last_component(s, '/'),
    decreases s.len(),
{
    if s.len() > 0 {
        if is_sep(s.last(), main) {
            assert(lacks(s.drop_last(), main)) by {
                assert forall|i: int| 0 <= i < s.drop_last().len() implies s.drop_last()[i]
                    != main by {
                    assert(s.drop_last()[i] == s[i]);
                }
            }
            lemma_last_component_without_main(s.drop_last(), main);
        } else {
            lemma_component_start_without(s, main);
            lemma_component_start_bound(s, main);
            let k = component_start(s, main);
            assert(lacks(s.subrange(0, k), main)) by {
                assert forall|i: int| 0 <= i < s.subrange(0, k).len() implies s.subrange(0, k)[i]
                    != main by {
                    assert(s.subrange(0, k)[i] == s[i]);
                }
            }
            lemma_last_component_without_main(s.subrange(0, k), main);
        }
    }
}

/// A path that reads the same on every platform: no `\` and no drive.
pub open spec fn reads_alike(s: Seq<char>) -> bool {
    lacks(s, '\\') && !has_drive(s)
}

/// A path with no `\` and no drive has the same file name on Windows as with
/// `/` alone: on every platform such a path reads the same.
pub proof fn lemma_file_name_reads_alike(s: Seq<char>)
    requires
        reads_alike(s),
    ensures
        file_name_of(s, '\\') == file_name_of(s, '/'),
{
    assert(s.subrange(0, s.len() as int) =~= s);
    lemma_last_component_without_main(s, '\\');
}

/// `std::path::MAIN_SEPARATOR`: the main path separator of the platform the
/// program is built for, `\` on Windows and `/` on every other platform.
#[verifier::external_body]
fn main_separator() -> (r: char)
    ensures
        r == '/' || r == '\\',
{
    std::path::MAIN_SEPARATOR
}

/// The file name of a path as std's `Path::file_name` reads it on the platform
/// the program is built for: with `/` as the only separator, or on Windows
/// with `\` as a separator too and a drive such as `C:` as a prefix. A path
/// without `\` and without a drive reads the same everywhere.
pub fn file_name(path: &str) -> (r: Option<&str>)
    ensures
        opt_str(r) == file_name_of(path@, '/') || opt_str(r) == file_name_of(path@, '\\'),
        reads_alike(path@) ==> opt_str(r) == file_name_of(path@, '/'),
{
    let main = main_separator();
    proof {
        if reads_alike(path@) {
            lemma_file_name_reads_alike(path@);
        }
    }
    file_name_with(path, main)
}

/// The extension of a file name (see `extension_of_name`).
pub fn extension(name: &str) -> (r: Option<&str>)
    ensures
        match r {
            Some(e) => extension_of_name(name@) == Some(e@),
            None => extension_of_name(name@) is None,
        },
{
    let n = name.unicode_len();
    proof {
        reveal_strlit("..");
        assert(".."@ =~= seq!['.', '.']);
    }
    if str_eq(name, "..") {
        return None;
    }
    let mut d: usize = n;
    assert(name@.subrange(0, n as int) =~= name@);
    while d > 0 && name.get_char(d - 1) != '.'
        invariant
            n == name@.len(),
            d <= n,
            last_dot(name@) == last_dot(name@.subrange(0, d as int)),
        decreases d,
    {
        assert(name@.subrange(0, d as int).drop_last() =~= name@.subrange(0, d - 1));
        d = d - 1;
    }
    proof {
        if d > 0 {
            assert(name@.subrange(0, d as int).last() == '.');
            assert(last_dot(name@.subrange(0, d as int)) == d - 1);
        } else {
            assert(last_dot(name@.subrange(0, d as int)) == -1);
        }
    }
    if d <= 1 {
        return None;
    }
    Some(name.substring_char(d, n))
}

/// The MIME type guessed for a path on a platform whose main separator is
/// `main`: that of its file name's extension, if the extension is known.
pub open spec fn mime_of_path(path: Seq<char>, main: char) -> Option<Seq<char>> {
    match extension_of_path(path, main) {
        Some(e) => mime_for_ext(e),
        None => None,
    }
}

/// The MIME type guessed for a path on a platform whose main separator is
/// `main`; `None` when unknown.
pub fn mime_from_extension_with(path: &str, main: char) -> (r: Option<String>)
    ensures
        opt_text(r) == mime_of_path(path@, main),
{
    let name = match file_name_with(path, main) {
        Some(n) => n,
        None => return None,
    };
    match extension(name) {
        Some(e) => mime_for_extension(e),
        None => None,
    }
}

/// Guess a MIME type from a file extension. Returns `None` when unknown.
///
/// The path is read as std's `Path` reads it on the platform the program is
/// built for (see `file_name`); its extension is looked up by
/// `mime_for_extension`.
pub fn mime_from_extension(path: &str) -> (r: Option<String>)
    ensures
        opt_text(r) == mime_of_path(path@, '/') || opt_text(r) == mime_of_path(path@, '\\'),
        reads_alike(path@) ==> opt_text(r) == mime_of_path(path@, '/'),
{
    let main = main_separator();
    proof {
        if reads_alike(path@) {
            lemma_file_name_reads_alike(path@);
        }
    }
    mime_from_extension_with(path, main)
}

/// The MIME type guessed for a path depends only on its extension, ASCII
/// case aside: two paths whose extensions differ only in ASCII case get the
/// same guess, and a path with no extension gets none. Every guess is a type
/// the upload policy accepts. This holds for either reading of the separators.
pub proof fn lemma_mime_of_path_laws(p: Seq<char>, q: Seq<char>, main: char)
    ensures
        extension_of_path(p, main) is None ==> mime_of_path(p, main) is None,
        (extension_of_path(p, main) matches Some(e1) && extension_of_path(q, main) matches Some(
            e2,
        ) && ascii_lower(e1) == ascii_lower(e2)) ==> mime_of_path(p, main) == mime_of_path(
            q,
            main,
        ),
        mime_of_path(p, main) matches Some(m) ==> allowed_mime(m),
{
    if let Some(e) = extension_of_path(p, main) {
        lemma_guessed_mime_is_allowed(e);
    }
}

/// A text with no whitespace at either end is its own trim.
proof fn lemma_trim_of_unpadded(s: Seq<char>)
    requires
        s.len() > 0,
        !is_white_space(s[0]),
        !is_white_space(s.last()),
    ensures
        trim_spec(s) == s,
{
    assert(trim_start_spec(s) == s);
    assert(trim_end_spec(s) == s);
}

proof fn lemma_mime_literal_allowed(m: Seq<char>)
    requires
        m.len() > 0,
        !is_white_space(m[0]),
        !is_white_space(m.last()),
        has_prefix(m, "text/"@) || has_prefix(m, "image/"@) || has_prefix(m, "audio/"@)
            || has_prefix(m, "video/"@) || m == "application/pdf"@ || m == "application/json"@,
    ensures
        allowed_mime(m),
{
    lemma_trim_of_unpadded(m);
}

/// Whether a MIME type is accepted depends only on its trimmed text; a blank
/// one is never accepted.
pub proof fn lemma_allowed_mime_ignores_padding(mime: Seq<char>)
    ensures
        allowed_mime(trim_spec(mime)) == allowed_mime(mime),
        trim_spec(mime).len() == 0 ==> !allowed_mime(mime),
{
    lemma_trim_idempotent(mime);
}

/// The extension table is read case-insensitively.
pub proof fn lemma_mime_for_ext_ignores_case(ext: Seq<char>)
    ensures
        mime_for_ext(ascii_lower(ext)) == mime_for_ext(ext),
{
    assert(ascii_lower(ascii_lower(ext)) =~= ascii_lower(ext));
}

/// Every MIME type the extension table guesses is one the upload policy
/// accepts.
pub proof fn lemma_guessed_mime_is_allowed(ext: Seq<char>)
    ensures
        mime_for_ext(ext) matches Some(m) ==> allowed_mime(m),
{
    reveal_strlit("text/");
    reveal_strlit("image/");
    reveal_strlit("audio/");
    reveal_strlit("video/");
    reveal_strlit("application/json");
    lemma_mime_literal_allowed("application/json"@);
    reveal_strlit("application/pdf");
    lemma_mime_literal_allowed("application/pdf"@);
    reveal_strlit("audio/aac");
    assert("audio/aac"@.subrange(0, 6) =~= "audio/"@);
    lemma_mime_literal_allowed("audio/aac"@);
    reveal_strlit("audio/flac");
    assert("audio/flac"@.subrange(0, 6) =~= "audio/"@);
    lemma_mime_literal_allowed("audio/flac"@);
    reveal_strlit("audio/midi");
    assert("audio/midi"@.subrange(0, 6) =~= "audio/"@);
    lemma_mime_literal_allowed("audio/midi"@);
    reveal_strlit("audio/mp4");
    assert("audio/mp4"@.subrange(0, 6) =~= "audio/"@);
    lemma_mime_literal_allowed("audio/mp4"@);
    reveal_strlit("audio/mpeg");
    assert("audio/mpeg"@.subrange(0, 6) =~= "audio/"@);
    lemma_mime_literal_allowed("audio/mpeg"@);
    reveal_strlit("audio/ogg");
    assert("audio/ogg"@.subrange(0, 6) =~= "audio/"@);
    lemma_mime_literal_allowed("audio/ogg"@);
    reveal_strlit("audio/opus");
    assert("audio/opus"@.subrange(0, 6) =~= "audio/"@);
    lemma_mime_literal_allowed("audio/opus"@);
    reveal_strlit("audio/wav");
    assert("audio/wav"@.subrange(0, 6) =~= "audio/"@);
    lemma_mime_literal_allowed("audio/wav"@);
    reveal_strlit("audio/x-ms-wma");
    assert("audio/x-ms-wma"@.subrange(0, 6) =~= "audio/"@);
    lemma_mime_literal_allowed("audio/x-ms-wma"@);
    reveal_strlit("image/avif");
    assert("image/avif"@.subrange(0, 6) =~= "image/"@);
    lemma_mime_literal_allowed("image/avif"@);
    reveal_strlit("image/bmp");
    assert("image/bmp"@.subrange(0, 6) =~= "image/"@);
    lemma_mime_literal_allowed("image/bmp"@);
    reveal_strlit("image/gif");
    assert("image/gif"@.subrange(0, 6) =~= "image/"@);
    lemma_mime_literal_allowed("image/gif"@);
    reveal_strlit("image/heif");
    assert("image/heif"@.subrange(0, 6) =~= "image/"@);
    lemma_mime_literal_allowed("image/heif"@);
    reveal_strlit("image/jpeg");
    assert("image/jpeg"@.subrange(0, 6) =~= "image/"@);
    lemma_mime_literal_allowed("image/jpeg"@);
    reveal_strlit("image/png");
    assert("image/png"@.subrange(0, 6) =~= "image/"@);
    lemma_mime_literal_allowed("image/png"@);
    reveal_strlit("image/svg+xml");
    assert("image/svg+xml"@.subrange(0, 6) =~= "image/"@);
    lemma_mime_literal_allowed("image/svg+xml"@);
    reveal_strlit("image/tiff");
    assert("image/tiff"@.subrange(0, 6) =~= "image/"@);
    lemma_mime_literal_allowed("image/tiff"@);
    reveal_strlit("image/webp");
    assert("image/webp"@.subrange(0, 6) =~= "image/"@);
    lemma_mime_literal_allowed("image/webp"@);
    reveal_strlit("image/x-icon");
    assert("image/x-icon"@.subrange(0, 6) =~= "image/"@);
    lemma_mime_literal_allowed("image/x-icon"@);
    reveal_strlit("text/plain");
    assert("text/plain"@.subrange(0, 5) =~= "text/"@);
    lemma_mime_literal_allowed("text/plain"@);
    reveal_strlit("video/mp2t");
    assert("video/mp2t"@.subrange(0, 6) =~= "video/"@);
    lemma_mime_literal_allowed("video/mp2t"@);
    reveal_strlit("video/mp4");
    assert("video/mp4"@.subrange(0, 6) =~= "video/"@);
    lemma_mime_literal_allowed("video/mp4"@);
    reveal_strlit("video/ogg");
    assert("video/ogg"@.subrange(0, 6) =~= "video/"@);
    lemma_mime_literal_allowed("video/ogg"@);
    reveal_strlit("video/quicktime");
    assert("video/quicktime"@.subrange(0, 6) =~= "video/"@);
    lemma_mime_literal_allowed("video/quicktime"@);
    reveal_strlit("video/webm");
    assert("video/webm"@.subrange(0, 6) =~= "video/"@);
    lemma_mime_literal_allowed("video/webm"@);
    reveal_strlit("video/x-flv");
    assert("video/x-flv"@.subrange(0, 6) =~= "video/"@);
    lemma_mime_literal_allowed("video/x-flv"@);
    reveal_strlit("video/x-matroska");
    assert("video/x-matroska"@.subrange(0, 6) =~= "video/"@);
    lemma_mime_literal_allowed("video/x-matroska"@);
    reveal_strlit("video/x-ms-wmv");
    assert("video/x-ms-wmv"@.subrange(0, 6) =~= "video/"@);
    lemma_mime_literal_allowed("video/x-ms-wmv"@);
    reveal_strlit("video/x-msvideo");
    assert("video/x-msvideo"@.subrange(0, 6) =~= "video/"@);
    lemma_mime_literal_allowed("video/x-msvideo"@);
}

/// A file name, or the empty text when there is none.
pub open spec fn name_or_empty(n: Option<Seq<char>>) -> Seq<char> {
    match n {
        Some(t) => t,
        None => Seq::<char>::empty(),
    }
}

/// Where the bytes of an upload come from.
#[derive(Clone, Debug, PartialEq, Eq)]
pub enum FileSource {
    Path(String),
    Bytes { name: String, mime: String, data: Vec<u8> },
}

impl FileSource {
    /// The file name shown for the upload: the given name for in-memory bytes,
    /// the final component of the path for a path (empty when it has none), as
    /// `file_name` reads it on the platform the program is built for.
    pub fn name(&self) -> (r: &str)
        ensures
            match self {
                FileSource::Path(p) => {
                    &&& (r@ == name_or_empty(file_name_of(p@, '/')) || r@ == name_or_empty(
                        file_name_of(p@, '\\'),
                    ))
                    &&& reads_alike(p@) ==> r@ == name_or_empty(file_name_of(p@, '/'))
                },
                FileSource::Bytes { name, .. } => r@ == name@,
            },
    {
        proof {
            reveal_strlit("");
        }
        match self {
            FileSource::Path(p) => match file_name(p.as_str()) {
                Some(n) => n,
                None => "",
            },
            FileSource::Bytes { name, .. } => name.as_str(),
        }
    }

    /// The size of the upload in bytes: the length of in-memory data, or, for a
    /// path, the length that the file system reported for it (`path_len`, read by
    /// the caller; `None` when the metadata could not be read).
    pub fn size_hint(&self, path_len: Option<u64>) -> (r: Option<u64>)
        ensures
            match self {
                FileSource::Path(_) => r == path_len,
                FileSource::Bytes { data, .. } => r == Some(data@.len() as u64),
            },
    {
        match self {
            FileSource::Path(_) => path_len,
            FileSource::Bytes { data, .. } => Some(data.len() as u64),
        }
    }
}

/// Every plain-text extension of the table (source code, markup, configuration
/// and the like) is guessed as `text/plain`.
pub proof fn lemma_text_extension_types()
    ensures
        mime_for_ext("txt"@) == Some("text/plain"@),
        mime_for_ext("csv"@) == Some("text/plain"@),
        mime_for_ext("tsv"@) == Some("text/plain"@),
        mime_for_ext("log"@) == Some("text/plain"@),
        mime_for_ext("md"@) == Some("text/plain"@),
        mime_for_ext("markdown"@) == Some("text/plain"@),
        mime_for_ext("html"@) == Some("text/plain"@),
        mime_for_ext("htm"@) == Some("text/plain"@),
        mime_for_ext("xml"@) == Some("text/plain"@),
        mime_for_ext("yaml"@) == Some("text/plain"@),
        mime_for_ext("yml"@) == Some("text/plain"@),
        mime_for_ext("toml"@) == Some("text/plain"@),
        mime_for_ext("ini"@) == Some("text/plain"@),
        mime_for_ext("cfg"@) == Some("text/plain"@),
        mime_for_ext("conf"@) == Some("text/plain"@),
        mime_for_ext("sh"@) == Some("text/plain"@),
        mime_for_ext("bash"@) == Some("text/plain"@),
        mime_for_ext("zsh"@) == Some("text/plain"@),
        mime_for_ext("fish"@) == Some("text/plain"@),
        mime_for_ext("ps1"@) == Some("text/plain"@),
        mime_for_ext("bat"@) == Some("text/plain"@),
        mime_for_ext("cmd"@) == Some("text/plain"@),
        mime_for_ext("py"@) == Some("text/plain"@),
        mime_for_ext("rb"@) == Some("text/plain"@),
        mime_for_ext("js"@) == Some("text/plain"@),
        mime_for_ext("jsx"@) == Some("text/plain"@),
        mime_for_ext("tsx"@) == Some("text/plain"@),
        mime_for_ext("rs"@) == Some("text/plain"@),
        mime_for_ext("go"@) == Some("text/plain"@),
        mime_for_ext("java"@) == Some("text/plain"@),
        mime_for_ext("c"@) == Some("text/plain"@),
        mime_for_ext("h"@) == Some("text/plain"@),
        mime_for_ext("cpp"@) == Some("text/plain"@),
        mime_for_ext("hpp"@) == Some("text/plain"@),
        mime_for_ext("cs"@) == Some("text/plain"@),
        mime_for_ext("swift"@) == Some("text/plain"@),
        mime_for_ext("kt"@) == Some("text/plain"@),
        mime_for_ext("scala"@) == Some("text/plain"@),
        mime_for_ext("clj"@) == Some("text/plain"@),
        mime_for_ext("lua"@) == Some("text/plain"@),
        mime_for_ext("pl"@) == Some("text/plain"@),
        mime_for_ext("pm"@) == Some("text/plain"@),
        mime_for_ext("r"@) == Some("text/plain"@),
        mime_for_ext("sql"@) == Some("text/plain"@),
        mime_for_ext("css"@) == Some("text/plain"@),
        mime_for_ext("scss"@) == Some("text/plain"@),
        mime_for_ext("less"@) == Some("text/plain"@),
        mime_for_ext("graphql"@) == Some("text/plain"@),
        mime_for_ext("gql"@) == Some("text/plain"@),
        mime_for_ext("proto"@) == Some("text/plain"@),
        mime_for_ext("tf"@) == Some("text/plain"@),
        mime_for_ext("hcl"@) == Some("text/plain"@),
        mime_for_ext("dockerfile"@) == Some("text/plain"@),
        mime_for_ext("makefile"@) == Some("text/plain"@),
        mime_for_ext("cmake"@) == Some("text/plain"@),
        mime_for_ext("gradle"@) == Some("text/plain"@),
        mime_for_ext("properties"@) == Some("text/plain"@),
        mime_for_ext("env"@) == Some("text/plain"@),
        mime_for_ext("gitignore"@) == Some("text/plain"@),
        mime_for_ext("editorconfig"@) == Some("text/plain"@),
        mime_for_ext("license"@) == Some("text/plain"@),
        mime_for_ext("readme"@) == Some("text/plain"@),
{
    reveal_strlit("txt"); reveal_strlit("csv"); reveal_strlit("tsv"); reveal_strlit("log");
    reveal_strlit("md"); reveal_strlit("markdown"); reveal_strlit("html"); reveal_strlit("htm");
    reveal_strlit("xml"); reveal_strlit("yaml"); reveal_strlit("yml"); reveal_strlit("toml");
    reveal_strlit("ini"); reveal_strlit("cfg"); reveal_strlit("conf"); reveal_strlit("sh");
    reveal_strlit("bash"); reveal_strlit("zsh"); reveal_strlit("fish"); reveal_strlit("ps1");
    reveal_strlit("bat"); reveal_strlit("cmd"); reveal_strlit("py"); reveal_strlit("rb");
    reveal_strlit("js"); reveal_strlit("jsx"); reveal_strlit("tsx"); reveal_strlit("rs");
    reveal_strlit("go"); reveal_strlit("java"); reveal_strlit("c"); reveal_strlit("h");
    reveal_strlit("cpp"); reveal_strlit("hpp"); reveal_strlit("cs"); reveal_strlit("swift");
    reveal_strlit("kt"); reveal_strlit("scala"); reveal_strlit("clj"); reveal_strlit("lua");
    reveal_strlit("pl"); reveal_strlit("pm"); reveal_strlit("r"); reveal_strlit("sql");
    reveal_strlit("css"); reveal_strlit("scss"); reveal_strlit("less"); reveal_strlit("graphql");
    reveal_strlit("gql"); reveal_strlit("proto"); reveal_strlit("tf"); reveal_strlit("hcl");
    reveal_strlit("dockerfile"); reveal_strlit("makefile"); reveal_strlit("cmake");
    reveal_strlit("gradle"); reveal_strlit("properties"); reveal_strlit("env");
    reveal_strlit("gitignore"); reveal_strlit("editorconfig"); reveal_strlit("license");
    reveal_strlit("readme");
    assert(ascii_lower("txt"@) =~= "txt"@);
    assert(ascii_lower("csv"@) =~= "csv"@);
    assert(ascii_lower("tsv"@) =~= "tsv"@);
    assert(ascii_lower("log"@) =~= "log"@);
    assert(ascii_lower("md"@) =~= "md"@);
    assert(ascii_lower("markdown"@) =~= "markdown"@);
    assert(ascii_lower("html"@) =~= "html"@);
    assert(ascii_lower("htm"@) =~= "htm"@);
    assert(ascii_lower("xml"@) =~= "xml"@);
    assert(ascii_lower("yaml"@) =~= "yaml"@);
    assert(ascii_lower("yml"@) =~= "yml"@);
    assert(ascii_lower("toml"@) =~= "toml"@);
    assert(ascii_lower("ini"@) =~= "ini"@);
    assert(ascii_lower("cfg"@) =~= "cfg"@);
    assert(ascii_lower("conf"@) =~= "conf"@);
    assert(ascii_lower("sh"@) =~= "sh"@);
    assert(ascii_lower("bash"@) =~= "bash"@);
    assert(ascii_lower("zsh"@) =~= "zsh"@);
    assert(ascii_lower("fish"@) =~= "fish"@);
    assert(ascii_lower("ps1"@) =~= "ps1"@);
    assert(ascii_lower("bat"@) =~= "bat"@);
    assert(ascii_lower("cmd"@) =~= "cmd"@);
    assert(ascii_lower("py"@) =~= "py"@);
    assert(ascii_lower("rb"@) =~= "rb"@);
    assert(ascii_lower("js"@) =~= "js"@);
    assert(ascii_lower("jsx"@) =~= "jsx"@);
    assert(ascii_lower("tsx"@) =~= "tsx"@);
    assert(ascii_lower("rs"@) =~= "rs"@);
    assert(ascii_lower("go"@) =~= "go"@);
    assert(ascii_lower("java"@) =~= "java"@);
    assert(ascii_lower("c"@) =~= "c"@);
    assert(ascii_lower("h"@) =~= "h"@);
    assert(ascii_lower("cpp"@) =~= "cpp"@);
    assert(ascii_lower("hpp"@) =~= "hpp"@);
    assert(ascii_lower("cs"@) =~= "cs"@);
    assert(ascii_lower("swift"@) =~= "swift"@);
    assert(ascii_lower("kt"@) =~= "kt"@);
    assert(ascii_lower("scala"@) =~= "scala"@);
    assert(ascii_lower("clj"@) =~= "clj"@);
    assert(ascii_lower("lua"@) =~= "lua"@);
    assert(ascii_lower("pl"@) =~= "pl"@);
    assert(ascii_lower("pm"@) =~= "pm"@);
    assert(ascii_lower("r"@) =~= "r"@);
    assert(ascii_lower("sql"@) =~= "sql"@);
    assert(ascii_lower("css"@) =~= "css"@);
    assert(ascii_lower("scss"@) =~= "scss"@);
    assert(ascii_lower("less"@) =~= "less"@);
    assert(ascii_lower("graphql"@) =~= "graphql"@);
    assert(ascii_lower("gql"@) =~= "gql"@);
    assert(ascii_lower("proto"@) =~= "proto"@);
    assert(ascii_lower("tf"@) =~= "tf"@);
    assert(ascii_lower("hcl"@) =~= "hcl"@);
    assert(ascii_lower("dockerfile"@) =~= "dockerfile"@);
    assert(ascii_lower("makefile"@) =~= "makefile"@);
    assert(ascii_lower("cmake"@) =~= "cmake"@);
    assert(ascii_lower("gradle"@) =~= "gradle"@);
    assert(ascii_lower("properties"@) =~= "properties"@);
    assert(ascii_lower("env"@) =~= "env"@);
    assert(ascii_lower("gitignore"@) =~= "gitignore"@);
    assert(ascii_lower("editorconfig"@) =~= "editorconfig"@);
    assert(ascii_lower("license"@) =~= "license"@);
    assert(ascii_lower("readme"@) =~= "readme"@);
}

/// TypeScript sources are plain text; JSON and JSON Lines files are
/// `application/json`; PDF files are `application/pdf`.
pub proof fn lemma_document_extension_types()
    ensures
        mime_for_ext("ts"@) == Some("text/plain"@),
        mime_for_ext("json"@) == Some("application/json"@),
        mime_for_ext("jsonl"@) == Some("application/json"@),
        mime_for_ext("pdf"@) == Some("application/pdf"@),
{
    reveal_strlit("txt"); reveal_strlit("csv"); reveal_strlit("tsv"); reveal_strlit("log");
    reveal_strlit("md"); reveal_strlit("markdown"); reveal_strlit("html"); reveal_strlit("htm");
    reveal_strlit("xml"); reveal_strlit("yaml"); reveal_strlit("yml"); reveal_strlit("toml");
    reveal_strlit("ini"); reveal_strlit("cfg"); reveal_strlit("conf"); reveal_strlit("sh");
    reveal_strlit("bash"); reveal_strlit("zsh"); reveal_strlit("fish"); reveal_strlit("ps1");
    reveal_strlit("bat"); reveal_strlit("cmd"); reveal_strlit("py"); reveal_strlit("rb");
    reveal_strlit("js"); reveal_strlit("jsx"); reveal_strlit("tsx"); reveal_strlit("rs");
    reveal_strlit("go"); reveal_strlit("java"); reveal_strlit("c"); reveal_strlit("h");
    reveal_strlit("cpp"); reveal_strlit("hpp"); reveal_strlit("cs"); reveal_strlit("swift");
    reveal_strlit("kt"); reveal_strlit("scala"); reveal_strlit("clj"); reveal_strlit("lua");
    reveal_strlit("pl"); reveal_strlit("pm"); reveal_strlit("r"); reveal_strlit("sql");
    reveal_strlit("css"); reveal_strlit("scss"); reveal_strlit("less"); reveal_strlit("graphql");
    reveal_strlit("gql"); reveal_strlit("proto"); reveal_strlit("tf"); reveal_strlit("hcl");
    reveal_strlit("dockerfile"); reveal_strlit("makefile"); reveal_strlit("cmake");
    reveal_strlit("gradle"); reveal_strlit("properties"); reveal_strlit("env");
    reveal_strlit("gitignore"); reveal_strlit("editorconfig"); reveal_strlit("license");
    reveal_strlit("readme"); reveal_strlit("ts"); reveal_strlit("json"); reveal_strlit("jsonl");
    reveal_strlit("pdf");
    assert("ts"@[0] == 't' && "ts"@[1] == 's');
    assert(ascii_lower("ts"@) =~= "ts"@);
    assert("json"@[0] == 'j' && "json"@[1] == 's' && "json"@[2] == 'o' && "json"@[3] == 'n');
    assert(ascii_lower("json"@) =~= "json"@);
    assert("jsonl"@[0] == 'j' && "jsonl"@[1] == 's'
        && "jsonl"@[2] == 'o' && "jsonl"@[3] == 'n' && "jsonl"@[4] == 'l');
    assert(ascii_lower("jsonl"@) =~= "jsonl"@);
    assert("pdf"@[0] == 'p' && "pdf"@[1] == 'd' && "pdf"@[2] == 'f');
    assert(ascii_lower("pdf"@) =~= "pdf"@);
}

/// Each image extension of the table is guessed as its registered image type.
pub proof fn lemma_image_extension_types()
    ensures
        mime_for_ext("png"@) == Some("image/png"@),
        mime_for_ext("jpg"@) == Some("image/jpeg"@),
        mime_for_ext("jpeg"@) == Some("image/jpeg"@),
        mime_for_ext("gif"@) == Some("image/gif"@),
        mime_for_ext("webp"@) == Some("image/webp"@),
        mime_for_ext("svg"@) == Some("image/svg+xml"@),
        mime_for_ext("svgz"@) == Some("image/svg+xml"@),
        mime_for_ext("bmp"@) == Some("image/bmp"@),
        mime_for_ext("ico"@) == Some("image/x-icon"@),
        mime_for_ext("tiff"@) == Some("image/tiff"@),
        mime_for_ext("tif"@) == Some("image/tiff"@),
        mime_for_ext("avif"@) == Some("image/avif"@),
        mime_for_ext("heic"@) == Some("image/heif"@),
        mime_for_ext("heif"@) == Some("image/heif"@),
{
    reveal_strlit("txt"); reveal_strlit("csv"); reveal_strlit("tsv"); reveal_strlit("log");
    reveal_strlit("md"); reveal_strlit("markdown"); reveal_strlit("html"); reveal_strlit("htm");
    reveal_strlit("xml"); reveal_strlit("yaml"); reveal_strlit("yml"); reveal_strlit("toml");
    reveal_strlit("ini"); reveal_strlit("cfg"); reveal_strlit("conf"); reveal_strlit("sh");
    reveal_strlit("bash"); reveal_strlit("zsh"); reveal_strlit("fish"); reveal_strlit("ps1");
    reveal_strlit("bat"); reveal_strlit("cmd"); reveal_strlit("py"); reveal_strlit("rb");
    reveal_strlit("js"); reveal_strlit("jsx"); reveal_strlit("tsx"); reveal_strlit("rs");
    reveal_strlit("go"); reveal_strlit("java"); reveal_strlit("c"); reveal_strlit("h");
    reveal_strlit("cpp"); reveal_strlit("hpp"); reveal_strlit("cs"); reveal_strlit("swift");
    reveal_strlit("kt"); reveal_strlit("scala"); reveal_strlit("clj"); reveal_strlit("lua");
    reveal_strlit("pl"); reveal_strlit("pm"); reveal_strlit("r"); reveal_strlit("sql");
    reveal_strlit("css"); reveal_strlit("scss"); reveal_strlit("less"); reveal_strlit("graphql");
    reveal_strlit("gql"); reveal_strlit("proto"); reveal_strlit("tf"); reveal_strlit("hcl");
    reveal_strlit("dockerfile"); reveal_strlit("makefile"); reveal_strlit("cmake");
    reveal_strlit("gradle"); reveal_strlit("properties"); reveal_strlit("env");
    reveal_strlit("gitignore"); reveal_strlit("editorconfig"); reveal_strlit("license");
    reveal_strlit("readme"); reveal_strlit("ts"); reveal_strlit("json"); reveal_strlit("jsonl");
    reveal_strlit("pdf"); reveal_strlit("png"); reveal_strlit("jpg"); reveal_strlit("jpeg");
    reveal_strlit("gif"); reveal_strlit("webp"); reveal_strlit("svg"); reveal_strlit("svgz");
    reveal_strlit("bmp"); reveal_strlit("ico"); reveal_strlit("tiff"); reveal_strlit("tif");
    reveal_strlit("avif"); reveal_strlit("heic"); reveal_strlit("heif");
    assert("png"@[0] == 'p' && "png"@[1] == 'n' && "png"@[2] == 'g');
    assert(ascii_lower("png"@) =~= "png"@);
    assert("jpg"@[0] == 'j' && "jpg"@[1] == 'p' && "jpg"@[2] == 'g');
    assert(ascii_lower("jpg"@) =~= "jpg"@);
    assert("jpeg"@[0] == 'j' && "jpeg"@[1] == 'p' && "jpeg"@[2] == 'e' && "jpeg"@[3] == 'g');
    assert(ascii_lower("jpeg"@) =~= "jpeg"@);
    assert("gif"@[0] == 'g' && "gif"@[1] == 'i' && "gif"@[2] == 'f');
    assert(ascii_lower("gif"@) =~= "gif"@);
    assert("webp"@[0] == 'w' && "webp"@[1] == 'e' && "webp"@[2] == 'b' && "webp"@[3] == 'p');
    assert(ascii_lower("webp"@) =~= "webp"@);
    assert("svg"@[0] == 's' && "svg"@[1] == 'v' && "svg"@[2] == 'g');
    assert(ascii_lower("svg"@) =~= "svg"@);
    assert("svgz"@[0] == 's' && "svgz"@[1] == 'v' && "svgz"@[2] == 'g' && "svgz"@[3] == 'z');
    assert(ascii_lower("svgz"@) =~= "svgz"@);
    assert("bmp"@[0] == 'b' && "bmp"@[1] == 'm' && "bmp"@[2] == 'p');
    assert(ascii_lower("bmp"@) =~= "bmp"@);
    assert("ico"@[0] == 'i' && "ico"@[1] == 'c' && "ico"@[2] == 'o');
    assert(ascii_lower("ico"@) =~= "ico"@);
    assert("tiff"@[0] == 't' && "tiff"@[1] == 'i' && "tiff"@[2] == 'f' && "tiff"@[3] == 'f');
    assert(ascii_lower("tiff"@) =~= "tiff"@);
    assert("tif"@[0] == 't' && "tif"@[1] == 'i' && "tif"@[2] == 'f');
    assert(ascii_lower("tif"@) =~= "tif"@);
    assert("avif"@[0] == 'a' && "avif"@[1] == 'v' && "avif"@[2] == 'i' && "avif"@[3] == 'f');
    assert(ascii_lower("avif"@) =~= "avif"@);
    assert("heic"@[0] == 'h' && "heic"@[1] == 'e' && "heic"@[2] == 'i' && "heic"@[3] == 'c');
    assert(ascii_lower("heic"@) =~= "heic"@);
    assert("heif"@[0] == 'h' && "heif"@[1] == 'e' && "heif"@[2] == 'i' && "heif"@[3] == 'f');
    assert(ascii_lower("heif"@) =~= "heif"@);
}

/// Each audio extension of the table is guessed as its registered audio type.
pub proof fn lemma_audio_extension_types()
    ensures
        mime_for_ext("mp3"@) == Some("audio/mpeg"@),
        mime_for_ext("wav"@) == Some("audio/wav"@),
        mime_for_ext("ogg"@) == Some("audio/ogg"@),
        mime_for_ext("flac"@) == Some("audio/flac"@),
        mime_for_ext("aac"@) == Some("audio/aac"@),
        mime_for_ext("m4a"@) == Some("audio/mp4"@),
        mime_for_ext("opus"@) == Some("audio/opus"@),
        mime_for_ext("wma"@) == Some("audio/x-ms-wma"@),
        mime_for_ext("mid"@) == Some("audio/midi"@),
        mime_for_ext("midi"@) == Some("audio/midi"@),
{
    reveal_strlit("txt"); reveal_strlit("csv"); reveal_strlit("tsv"); reveal_strlit("log");
    reveal_strlit("md"); reveal_strlit("markdown"); reveal_strlit("html"); reveal_strlit("htm");
    reveal_strlit("xml"); reveal_strlit("yaml"); reveal_strlit("yml"); reveal_strlit("toml");
    reveal_strlit("ini"); reveal_strlit("cfg"); reveal_strlit("conf"); reveal_strlit("sh");
    reveal_strlit("bash"); reveal_strlit("zsh"); reveal_strlit("fish"); reveal_strlit("ps1");
    reveal_strlit("bat"); reveal_strlit("cmd"); reveal_strlit("py"); reveal_strlit("rb");
    reveal_strlit("js"); reveal_strlit("jsx"); reveal_strlit("tsx"); reveal_strlit("rs");
    reveal_strlit("go"); reveal_strlit("java"); reveal_strlit("c"); reveal_strlit("h");
    reveal_strlit("cpp"); reveal_strlit("hpp"); reveal_strlit("cs"); reveal_strlit("swift");
    reveal_strlit("kt"); reveal_strlit("scala"); reveal_strlit("clj"); reveal_strlit("lua");
    reveal_strlit("pl"); reveal_strlit("pm"); reveal_strlit("r"); reveal_strlit("sql");
    reveal_strlit("css"); reveal_strlit("scss"); reveal_strlit("less"); reveal_strlit("graphql");
    reveal_strlit("gql"); reveal_strlit("proto"); reveal_strlit("tf"); reveal_strlit("hcl");
    reveal_strlit("dockerfile"); reveal_strlit("makefile"); reveal_strlit("cmake");
    reveal_strlit("gradle"); reveal_strlit("properties"); reveal_strlit("env");
    reveal_strlit("gitignore"); reveal_strlit("editorconfig"); reveal_strlit("license");
    reveal_strlit("readme"); reveal_strlit("ts"); reveal_strlit("json"); reveal_strlit("jsonl");
    reveal_strlit("pdf"); reveal_strlit("png"); reveal_strlit("jpg"); reveal_strlit("jpeg");
    reveal_strlit("gif"); reveal_strlit("webp"); reveal_strlit("svg"); reveal_strlit("svgz");
    reveal_strlit("bmp"); reveal_strlit("ico"); reveal_strlit("tiff"); reveal_strlit("tif");
    reveal_strlit("avif"); reveal_strlit("heic"); reveal_strlit("heif"); reveal_strlit("mp3");
    reveal_strlit("wav"); reveal_strlit("ogg"); reveal_strlit("flac"); reveal_strlit("aac");
    reveal_strlit("m4a"); reveal_strlit("opus"); reveal_strlit("wma"); reveal_strlit("mid");
    reveal_strlit("midi");
    assert("mp3"@[0] == 'm' && "mp3"@[1] == 'p' && "mp3"@[2] == '3');
    assert(ascii_lower("mp3"@) =~= "mp3"@);
    assert("wav"@[0] == 'w' && "wav"@[1] == 'a' && "wav"@[2] == 'v');
    assert(ascii_lower("wav"@) =~= "wav"@);
    assert("ogg"@[0] == 'o' && "ogg"@[1] == 'g' && "ogg"@[2] == 'g');
    assert(ascii_lower("ogg"@) =~= "ogg"@);
    assert("flac"@[0] == 'f' && "flac"@[1] == 'l' && "flac"@[2] == 'a' && "flac"@[3] == 'c');
    assert(ascii_lower("flac"@) =~= "flac"@);
    assert("aac"@[0] == 'a' && "aac"@[1] == 'a' && "aac"@[2] == 'c');
    assert(ascii_lower("aac"@) =~= "aac"@);
    assert("m4a"@[0] == 'm' && "m4a"@[1] == '4' && "m4a"@[2] == 'a');
    assert(ascii_lower("m4a"@) =~= "m4a"@);
    assert("opus"@[0] == 'o' && "opus"@[1] == 'p' && "opus"@[2] == 'u' && "opus"@[3] == 's');
    assert(ascii_lower("opus"@) =~= "opus"@);
    assert("wma"@[0] == 'w' && "wma"@[1] == 'm' && "wma"@[2] == 'a');
    assert(ascii_lower("wma"@) =~= "wma"@);
    assert("mid"@[0] == 'm' && "mid"@[1] == 'i' && "mid"@[2] == 'd');
    assert(ascii_lower("mid"@) =~= "mid"@);
    assert("midi"@[0] == 'm' && "midi"@[1] == 'i' && "midi"@[2] == 'd' && "midi"@[3] == 'i');
    assert(ascii_lower("midi"@) =~= "midi"@);
}

/// Each video extension of the table is guessed as its registered video type.
pub proof fn lemma_video_extension_types()
    ensures
        mime_for_ext("mp4"@) == Some("video/mp4"@),
        mime_for_ext("webm"@) == Some("video/webm"@),
        mime_for_ext("mkv"@) == Some("video/x-matroska"@),
        mime_for_ext("avi"@) == Some("video/x-msvideo"@),
        mime_for_ext("mov"@) == Some("video/quicktime"@),
        mime_for_ext("wmv"@) == Some("video/x-ms-wmv"@),
        mime_for_ext("flv"@) == Some("video/x-flv"@),
        mime_for_ext("ogv"@) == Some("video/ogg"@),
        mime_for_ext("m2ts"@) == Some("video/mp2t"@),
        mime_for_ext("mts"@) == Some("video/mp2t"@),
{
    reveal_strlit("txt"); reveal_strlit("csv"); reveal_strlit("tsv"); reveal_strlit("log");
    reveal_strlit("md"); reveal_strlit("markdown"); reveal_strlit("html"); reveal_strlit("htm");
    reveal_strlit("xml"); reveal_strlit("yaml"); reveal_strlit("yml"); reveal_strlit("toml");
    reveal_strlit("ini"); reveal_strlit("cfg"); reveal_strlit("conf"); reveal_strlit("sh");
    reveal_strlit("bash"); reveal_strlit("zsh"); reveal_strlit("fish"); reveal_strlit("ps1");
    reveal_strlit("bat"); reveal_strlit("cmd"); reveal_strlit("py"); reveal_strlit("rb");
    reveal_strlit("js"); reveal_strlit("jsx"); reveal_strlit("tsx"); reveal_strlit("rs");
    reveal_strlit("go"); reveal_strlit("java"); reveal_strlit("c"); reveal_strlit("h");
    reveal_strlit("cpp"); reveal_strlit("hpp"); reveal_strlit("cs"); reveal_strlit("swift");
    reveal_strlit("kt"); reveal_strlit("scala"); reveal_strlit("clj"); reveal_strlit("lua");
    reveal_strlit("pl"); reveal_strlit("pm"); reveal_strlit("r"); reveal_strlit("sql");
    reveal_strlit("css"); reveal_strlit("scss"); reveal_strlit("less"); reveal_strlit("graphql");
    reveal_strlit("gql"); reveal_strlit("proto"); reveal_strlit("tf"); reveal_strlit("hcl");
    reveal_strlit("dockerfile"); reveal_strlit("makefile"); reveal_strlit("cmake");
    reveal_strlit("gradle"); reveal_strlit("properties"); reveal_strlit("env");
    reveal_strlit("gitignore"); reveal_strlit("editorconfig"); reveal_strlit("license");
    reveal_strlit("readme"); reveal_strlit("ts"); reveal_strlit("json"); reveal_strlit("jsonl");
    reveal_strlit("pdf"); reveal_strlit("png"); reveal_strlit("jpg"); reveal_strlit("jpeg");
    reveal_strlit("gif"); reveal_strlit("webp"); reveal_strlit("svg"); reveal_strlit("svgz");
    reveal_strlit("bmp"); reveal_strlit("ico"); reveal_strlit("tiff"); reveal_strlit("tif");
    reveal_strlit("avif"); reveal_strlit("heic"); reveal_strlit("heif"); reveal_strlit("mp3");
    reveal_strlit("wav"); reveal_strlit("ogg"); reveal_strlit("flac"); reveal_strlit("aac");
    reveal_strlit("m4a"); reveal_strlit("opus"); reveal_strlit("wma"); reveal_strlit("mid");
    reveal_strlit("midi"); reveal_strlit("mp4"); reveal_strlit("webm"); reveal_strlit("mkv");
    reveal_strlit("avi"); reveal_strlit("mov"); reveal_strlit("wmv"); reveal_strlit("flv");
    reveal_strlit("ogv"); reveal_strlit("m2ts"); reveal_strlit("mts");
    assert("mp4"@[0] == 'm' && "mp4"@[1] == 'p' && "mp4"@[2] == '4');
    assert(ascii_lower("mp4"@) =~= "mp4"@);
    assert("webm"@[0] == 'w' && "webm"@[1] == 'e' && "webm"@[2] == 'b' && "webm"@[3] == 'm');
    assert(ascii_lower("webm"@) =~= "webm"@);
    assert("mkv"@[0] == 'm' && "mkv"@[1] == 'k' && "mkv"@[2] == 'v');
    assert(ascii_lower("mkv"@) =~= "mkv"@);
    assert("avi"@[0] == 'a' && "avi"@[1] == 'v' && "avi"@[2] == 'i');
    assert(ascii_lower("avi"@) =~= "avi"@);
    assert("mov"@[0] == 'm' && "mov"@[1] == 'o' && "mov"@[2] == 'v');
    assert(ascii_lower("mov"@) =~= "mov"@);
    assert("wmv"@[0] == 'w' && "wmv"@[1] == 'm' && "wmv"@[2] == 'v');
    assert(ascii_lower("wmv"@) =~= "wmv"@);
    assert("flv"@[0] == 'f' && "flv"@[1] == 'l' && "flv"@[2] == 'v');
    assert(ascii_lower("flv"@) =~= "flv"@);
    assert("ogv"@[0] == 'o' && "ogv"@[1] == 'g' && "ogv"@[2] == 'v');
    assert(ascii_lower("ogv"@) =~= "ogv"@);
    assert("m2ts"@[0] == 'm' && "m2ts"@[1] == '2' && "m2ts"@[2] == 't' && "m2ts"@[3] == 's');
    assert(ascii_lower("m2ts"@) =~= "m2ts"@);
    assert("mts"@[0] == 'm' && "mts"@[1] == 't' && "mts"@[2] == 's');
    assert(ascii_lower("mts"@) =~= "mts"@);
}

/// An extension outside the table, in any ASCII case, gets no MIME type.
pub proof fn lemma_unlisted_extension_unknown(ext: Seq<char>)
    ensures
        !seq![
            "txt"@, "csv"@, "tsv"@, "log"@, "md"@, "markdown"@, "html"@, "htm"@, "xml"@, "yaml"@,
            "yml"@, "toml"@, "ini"@, "cfg"@, "conf"@, "sh"@, "bash"@, "zsh"@, "fish"@, "ps1"@,
            "bat"@, "cmd"@, "py"@, "rb"@, "js"@, "jsx"@, "tsx"@, "rs"@, "go"@, "java"@, "c"@, "h"@,
            "cpp"@, "hpp"@, "cs"@, "swift"@, "kt"@, "scala"@, "clj"@, "lua"@, "pl"@, "pm"@, "r"@,
            "sql"@, "css"@, "scss"@, "less"@, "graphql"@, "gql"@, "proto"@, "tf"@, "hcl"@,
            "dockerfile"@, "makefile"@, "cmake"@, "gradle"@, "properties"@, "env"@, "gitignore"@,
            "editorconfig"@, "license"@, "readme"@, "ts"@, "json"@, "jsonl"@, "pdf"@, "png"@,
            "jpg"@, "jpeg"@, "gif"@, "webp"@, "svg"@, "svgz"@, "bmp"@, "ico"@, "tiff"@, "tif"@,
            "avif"@, "heic"@, "heif"@, "mp3"@, "wav"@, "ogg"@, "flac"@, "aac"@, "m4a"@, "opus"@,
            "wma"@, "mid"@, "midi"@, "mp4"@, "webm"@, "mkv"@, "avi"@, "mov"@, "wmv"@, "flv"@,
            "ogv"@, "m2ts"@, "mts"@,
        ].contains(ascii_lower(ext)) ==> mime_for_ext(ext) is None,
{
    let listed = seq![
        "txt"@, "csv"@, "tsv"@, "log"@, "md"@, "markdown"@, "html"@, "htm"@, "xml"@, "yaml"@,
        "yml"@, "toml"@, "ini"@, "cfg"@, "conf"@, "sh"@, "bash"@, "zsh"@, "fish"@, "ps1"@,
        "bat"@, "cmd"@, "py"@, "rb"@, "js"@, "jsx"@, "tsx"@, "rs"@, "go"@, "java"@, "c"@, "h"@,
        "cpp"@, "hpp"@, "cs"@, "swift"@, "kt"@, "scala"@, "clj"@, "lua"@, "pl"@, "pm"@, "r"@,
        "sql"@, "css"@, "scss"@, "less"@, "graphql"@, "gql"@, "proto"@, "tf"@, "hcl"@,
        "dockerfile"@, "makefile"@, "cmake"@, "gradle"@, "properties"@, "env"@, "gitignore"@,
        "editorconfig"@, "license"@, "readme"@, "ts"@, "json"@, "jsonl"@, "pdf"@, "png"@,
        "jpg"@, "jpeg"@, "gif"@, "webp"@, "svg"@, "svgz"@, "bmp"@, "ico"@, "tiff"@, "tif"@,
        "avif"@, "heic"@, "heif"@, "mp3"@, "wav"@, "ogg"@, "flac"@, "aac"@, "m4a"@, "opus"@,
        "wma"@, "mid"@, "midi"@, "mp4"@, "webm"@, "mkv"@, "avi"@, "mov"@, "wmv"@, "flv"@,
        "ogv"@, "m2ts"@, "mts"@,
    ];
    let e = ascii_lower(ext);
    if mime_for_ext(ext) is Some {
        if e == "txt"@ { assert(listed[0] == e); }
        if e == "csv"@ { assert(listed[1] == e); }
        if e == "tsv"@ { assert(listed[2] == e); }
        if e == "log"@ { assert(listed[3] == e); }
        if e == "md"@ { assert(listed[4] == e); }
        if e == "markdown"@ { assert(listed[5] == e); }
        if e == "html"@ { assert(listed[6] == e); }
        if e == "htm"@ { assert(listed[7] == e); }
        if e == "xml"@ { assert(listed[8] == e); }
        if e == "yaml"@ { assert(listed[9] == e); }
        if e == "yml"@ { assert(listed[10] == e); }
        if e == "toml"@ { assert(listed[11] == e); }
        if e == "ini"@ { assert(listed[12] == e); }
        if e == "cfg"@ { assert(listed[13] == e); }
        if e == "conf"@ { assert(listed[14] == e); }
        if e == "sh"@ { assert(listed[15] == e); }
        if e == "bash"@ { assert(listed[16] == e); }
        if e == "zsh"@ { assert(listed[17] == e); }
        if e == "fish"@ { assert(listed[18] == e); }
        if e == "ps1"@ { assert(listed[19] == e); }
        if e == "bat"@ { assert(listed[20] == e); }
        if e == "cmd"@ { assert(listed[21] == e); }
        if e == "py"@ { assert(listed[22] == e); }
        if e == "rb"@ { assert(listed[23] == e); }
        if e == "js"@ { assert(listed[24] == e); }
        if e == "jsx"@ { assert(listed[25] == e); }
        if e == "tsx"@ { assert(listed[26] == e); }
        if e == "rs"@ { assert(listed[27] == e); }
        if e == "go"@ { assert(listed[28] == e); }
        if e == "java"@ { assert(listed[29] == e); }
        if e == "c"@ { assert(listed[30] == e); }
        if e == "h"@ { assert(listed[31] == e); }
        if e == "cpp"@ { assert(listed[32] == e); }
        if e == "hpp"@ { assert(listed[33] == e); }
        if e == "cs"@ { assert(listed[34] == e); }
        if e == "swift"@ { assert(listed[35] == e); }
        if e == "kt"@ { assert(listed[36] == e); }
        if e == "scala"@ { assert(listed[37] == e); }
        if e == "clj"@ { assert(listed[38] == e); }
        if e == "lua"@ { assert(listed[39] == e); }
        if e == "pl"@ { assert(listed[40] == e); }
        if e == "pm"@ { assert(listed[41] == e); }
        if e == "r"@ { assert(listed[42] == e); }
        if e == "sql"@ { assert(listed[43] == e); }
        if e == "css"@ { assert(listed[44] == e); }
        if e == "scss"@ { assert(listed[45] == e); }
        if e == "less"@ { assert(listed[46] == e); }
        if e == "graphql"@ { assert(listed[47] == e); }
        if e == "gql"@ { assert(listed[48] == e); }
        if e == "proto"@ { assert(listed[49] == e); }
        if e == "tf"@ { assert(listed[50] == e); }
        if e == "hcl"@ { assert(listed[51] == e); }
        if e == "dockerfile"@ { assert(listed[52] == e); }
        if e == "makefile"@ { assert(listed[53] == e); }
        if e == "cmake"@ { assert(listed[54] == e); }
        if e == "gradle"@ { assert(listed[55] == e); }
        if e == "properties"@ { assert(listed[56] == e); }
        if e == "env"@ { assert(listed[57] == e); }
        if e == "gitignore"@ { assert(listed[58] == e); }
        if e == "editorconfig"@ { assert(listed[59] == e); }
        if e == "license"@ { assert(listed[60] == e); }
        if e == "readme"@ { assert(listed[61] == e); }
        if e == "ts"@ { assert(listed[62] == e); }
        if e == "json"@ { assert(listed[63] == e); }
        if e == "jsonl"@ { assert(listed[64] == e); }
        if e == "pdf"@ { assert(listed[65] == e); }
        if e == "png"@ { assert(listed[66] == e); }
        if e == "jpg"@ { assert(listed[67] == e); }
        if e == "jpeg"@ { assert(listed[68] == e); }
        if e == "gif"@ { assert(listed[69] == e); }
        if e == "webp"@ { assert(listed[70] == e); }
        if e == "svg"@ { assert(listed[71] == e); }
        if e == "svgz"@ { assert(listed[72] == e); }
        if e == "bmp"@ { assert(listed[73] == e); }
        if e == "ico"@ { assert(listed[74] == e); }
        if e == "tiff"@ { assert(listed[75] == e); }
        if e == "tif"@ { assert(listed[76] == e); }
        if e == "avif"@ { assert(listed[77] == e); }
        if e == "heic"@ { assert(listed[78] == e); }
        if e == "heif"@ { assert(listed[79] == e); }
        if e == "mp3"@ { assert(listed[80] == e); }
        if e == "wav"@ { assert(listed[81] == e); }
        if e == "ogg"@ { assert(listed[82] == e); }
        if e == "flac"@ { assert(listed[83] == e); }
        if e == "aac"@ { assert(listed[84] == e); }
        if e == "m4a"@ { assert(listed[85] == e); }
        if e == "opus"@ { assert(listed[86] == e); }
        if e == "wma"@ { assert(listed[87] == e); }
        if e == "mid"@ { assert(listed[88] == e); }
        if e == "midi"@ { assert(listed[89] == e); }
        if e == "mp4"@ { assert(listed[90] == e); }
        if e == "webm"@ { assert(listed[91] == e); }
        if e == "mkv"@ { assert(listed[92] == e); }
        if e == "avi"@ { assert(listed[93] == e); }
        if e == "mov"@ { assert(listed[94] == e); }
        if e == "wmv"@ { assert(listed[95] == e); }
        if e == "flv"@ { assert(listed[96] == e); }
        if e == "ogv"@ { assert(listed[97] == e); }
        if e == "m2ts"@ { assert(listed[98] == e); }
        if e == "mts"@ { assert(listed[99] == e); }
    }
}

} // verus!
