//! Fields of the forms that shape a request, read as the request's values.
use vstd::prelude::*;
use vstd::string::StringExecFns;

use crate::numeric::{parse_u32, parsed_u32};
use crate::text::{trim, trim_spec};

verus! {

/// The options of a representation request that its form sets, but the
/// distance bound, which is a fraction.
#[derive(Clone, Debug, PartialEq, Eq)]
pub struct ReprFields {
    pub search_query: Option<String>,
    pub search_top_k: Option<u32>,
    pub include_most_frequent: Option<bool>,
    pub max_conclusions: Option<u32>,
}

/// A text field read as an optional text: trimmed, and absent when blank.
pub fn optional_text(text: &str) -> (r: Option<String>)
    ensures
        trim_spec(text@).len() == 0 ==> r is None,
        trim_spec(text@).len() > 0 ==> (r matches Some(t) && t@ == trim_spec(text@)),
{
    let t = trim(text);
    if t.unicode_len() == 0 {
        None
    } else {
        Some(String::from_str(t))
    }
}

/// A text field read as an optional count: trimmed, and absent unless it
/// holds a number that fits in a `u32`.
pub fn optional_count(text: &str) -> (r: Option<u32>)
    ensures
        r == parsed_u32(trim_spec(text@)),
{
    parse_u32(trim(text))
}

/// The options that the representation form sets: the search query and the
/// counts as read from their fields, and "include most frequent" only when
/// ticked.
pub fn repr_fields(query: &str, top_k: &str, most_frequent: bool, max_conclusions: &str) -> (r:
    ReprFields)
    ensures
        trim_spec(query@).len() == 0 ==> r.search_query is None,
        trim_spec(query@).len() > 0 ==> (r.search_query matches Some(t) && t@ == trim_spec(
            query@,
        )),
        r.search_top_k == parsed_u32(trim_spec(top_k@)),
        r.include_most_frequent == if most_frequent {
            Some(true)
        } else {
            None
        },
        r.max_conclusions == parsed_u32(trim_spec(max_conclusions@)),
{
    ReprFields {
        search_query: optional_text(query),
        search_top_k: optional_count(top_k),
        include_most_frequent: if most_frequent {
            Some(true)
        } else {
            None
        },
        max_conclusions: optional_count(max_conclusions),
    }
}

} // verus!
