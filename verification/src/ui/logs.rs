//! Which files hold the application's log, and the part of it that is shown.
use vstd::prelude::*;

verus! {

/// Whether a file in the log directory holds the application's log: its name
/// starts with `taicho.log` (the rotated files carry a date after it).
pub fn is_log_file_name(name: &str) -> (r: bool)
    ensures
        r == crate::text::has_prefix(name@, "taicho.log"@),
{
    crate::text::starts_with(name, "taicho.log")
}

/// The last `limit` lines, or all of them when there are fewer.
pub fn tail_lines(lines: Vec<String>, limit: usize) -> (r: Vec<String>)
    ensures
        lines@.len() <= limit ==> r@ == lines@,
        lines@.len() > limit ==> r@ == lines@.subrange(lines@.len() - limit, lines@.len() as int),
{
    let n = lines.len();
    let skip = if n > limit {
        n - limit
    } else {
        0
    };
    let mut out: Vec<String> = Vec::new();
    let mut i: usize = skip;
    while i < n
        invariant
            n == lines@.len(),
            skip <= i <= n,
            out@ == lines@.subrange(skip as int, i as int),
        decreases n - i,
    {
        out.push(lines[i].clone());
        assert(out@ =~= lines@.subrange(skip as int, i + 1));
        i = i + 1;
    }
    assert(lines@.subrange(0, n as int) =~= lines@);
    out
}

/// A file of the log directory: its name, where it is valid Unicode, and when
/// it was last modified (nanoseconds since the Unix epoch), where known.
#[derive(Clone, Debug, PartialEq, Eq)]
pub struct LogFile {
    pub name: Option<String>,
    pub modified: Option<u128>,
}

/// The age key of a file: its modification time, with an unknown time older
/// than every known one.
pub open spec fn age_key(f: LogFile) -> int {
    match f.modified {
        Some(t) => t as int,
        None => -1,
    }
}

/// A file that holds the application's log.
pub open spec fn is_log(f: LogFile) -> bool {
    f.name matches Some(n) && crate::text::has_prefix(n@, "taicho.log"@)
}

/// `i` is the newest log among `files`: a log, modified no earlier than any
/// other log, and strictly later than every log listed before it.
pub open spec fn is_newest_log(files: Seq<LogFile>, i: int) -> bool {
    &&& 0 <= i < files.len()
    &&& is_log(files[i])
    &&& forall|j: int| 0 <= j < files.len() && is_log(#[trigger] files[j]) ==> age_key(files[j])
        <= age_key(files[i])
    &&& forall|j: int| 0 <= j < i && is_log(#[trigger] files[j]) ==> age_key(files[j]) < age_key(
        files[i],
    )
}

/// The position of the newest log file (the first of the newest when several
/// have the same time), or `None` when no file is a log.
pub fn newest_log(files: &Vec<LogFile>) -> (r: Option<usize>)
    ensures
        r matches Some(i) ==> is_newest_log(files@, i as int),
        r is None ==> forall|j: int| 0 <= j < files@.len() ==> !is_log(#[trigger] files@[j]),
{
    let mut best: Option<usize> = None;
    let mut i: usize = 0;
    while i < files.len()
        invariant
            i <= files@.len(),
            best matches Some(b) ==> {
                &&& b < i
                &&& is_log(files@[b as int])
                &&& forall|j: int| 0 <= j < i && is_log(#[trigger] files@[j]) ==> age_key(files@[j])
                    <= age_key(files@[b as int])
                &&& forall|j: int| 0 <= j < b && is_log(#[trigger] files@[j]) ==> age_key(files@[j])
                    < age_key(files@[b as int])
            },
            best is None ==> forall|j: int| 0 <= j < i ==> !is_log(#[trigger] files@[j]),
        decreases files@.len() - i,
    {
        let f = &files[i];
        let log = match &f.name {
            Some(n) => is_log_file_name(n.as_str()),
            None => false,
        };
        if log {
            let newer = match best {
                None => true,
                Some(b) => {
                    let g = &files[b];
                    match (f.modified, g.modified) {
                        (Some(t), Some(u)) => t > u,
                        (Some(_), None) => true,
                        (None, _) => false,
                    }
                },
            };
            if newer {
                best = Some(i);
            }
        }
        i = i + 1;
    }
    best
}

} // verus!
