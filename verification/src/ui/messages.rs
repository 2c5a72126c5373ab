//! How long message texts are shortened in listings.
use vstd::prelude::*;
use vstd::string::StrSliceExecFns;

verus! {

/// The number of bytes UTF-8 takes for a character.
pub open spec fn utf8_width(c: char) -> nat {
    if (c as u32) < 0x80 {
        1
    } else if (c as u32) < 0x800 {
        2
    } else if (c as u32) < 0x10000 {
        3
    } else {
        4
    }
}

/// The number of bytes UTF-8 takes for the first `k` characters of `s`.
pub open spec fn utf8_prefix_len(s: Seq<char>, k: int) -> nat
    decreases k,
{
    if k <= 0 {
        0
    } else {
        utf8_prefix_len(s, k - 1) + utf8_width(s[k - 1])
    }
}

/// Truncates `s` to at most `max` bytes without splitting a character: the
/// longest prefix of whole characters whose UTF-8 form fits in `max` bytes.
pub fn truncate(s: &str, max: usize) -> (r: &str)
    ensures
        exists|k: int|
            0 <= k <= s@.len() && r@ == s@.subrange(0, k) && utf8_prefix_len(s@, k) <= max && (k
                == s@.len() || utf8_prefix_len(s@, k + 1) > max),
{
    let n = s.unicode_len();
    let mut k: usize = 0;
    let mut used: usize = 0;
    while k < n
        invariant
            n == s@.len(),
            k <= n,
            used == utf8_prefix_len(s@, k as int),
            used <= max,
        decreases n - k,
    {
        let c = s.get_char(k);
        let w: usize = if (c as u32) < 0x80 {
            1
        } else if (c as u32) < 0x800 {
            2
        } else if (c as u32) < 0x10000 {
            3
        } else {
            4
        };
        if w > max - used {
            let r = s.substring_char(0, k);
            assert(utf8_prefix_len(s@, k + 1) == used + w);
            return r;
        }
        used = used + w;
        k = k + 1;
    }
    assert(s@.subrange(0, n as int) =~= s@);
    s.substring_char(0, n)
}

} // verus!
