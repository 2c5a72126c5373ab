//! Whole numbers as text: decimal rendering for messages and the parsing of
//! numeric form fields.
use vstd::prelude::*;
use vstd::string::StrSliceExecFns;

use crate::text::push_char;

verus! {

/// The decimal digit character for `d` (0 to 9).
pub open spec fn digit_char(d: int) -> char {
    (d + 48) as char
}

/// `n` written in decimal, without sign or leading zeros.
pub open spec fn decimal_text(n: nat) -> Seq<char>
    decreases n,
{
    if n < 10 {
        seq![digit_char(n as int)]
    } else {
        decimal_text(n / 10).push(digit_char((n % 10) as int))
    }
}

/// `n` in decimal, as `format!("{n}")` writes it.
pub fn decimal(n: u64) -> (r: String)
    ensures
        r@ == decimal_text(n as nat),
    decreases n,
{
    if n < 10 {
        let mut s = String::new();
        push_char(&mut s, ((n as u8) + 48) as char);
        s
    } else {
        let mut s = decimal(n / 10);
        push_char(&mut s, (((n % 10) as u8) + 48) as char);
        s
    }
}

/// Whether `c` is an ASCII decimal digit.
pub open spec fn is_digit(c: char) -> bool {
    '0' <= c && c <= '9'
}

/// The value of a run of decimal digits.
pub open spec fn digits_value(s: Seq<char>) -> nat
    decreases s.len(),
{
    if s.len() == 0 {
        0
    } else {
        (digits_value(s.drop_last()) * 10 + (s.last() as int - 48)) as nat
    }
}

/// The digits of an unsigned number: the text without one leading `+`.
pub open spec fn unsigned_digits(s: Seq<char>) -> Seq<char> {
    if s.len() > 0 && s[0] == '+' {
        s.drop_first()
    } else {
        s
    }
}

/// What `u32::from_str` accepts: an optional `+`, then one or more ASCII
/// digits whose value fits in a `u32`; and the value it gives.
pub open spec fn parsed_u32(s: Seq<char>) -> Option<u32> {
    let d = unsigned_digits(s);
    if d.len() > 0 && (forall|i: int| 0 <= i < d.len() ==> is_digit(#[trigger] d[i]))
        && digits_value(d) <= u32::MAX {
        Some(digits_value(d) as u32)
    } else {
        None
    }
}

/// The value of `digits_value` capped at `u32::MAX + 1`.
pub open spec fn capped(v: nat) -> nat {
    if v > u32::MAX {
        u32::MAX as nat + 1
    } else {
        v
    }
}

proof fn lemma_capped_step(v: nat, d: int)
    requires
        0 <= d <= 9,
    ensures
        capped((v * 10 + d) as nat) == capped((capped(v) * 10 + d) as nat),
{
    if v > u32::MAX {
        assert(v * 10 + d > u32::MAX) by (nonlinear_arith)
            requires
                v > u32::MAX,
                0 <= d,
        ;
    }
}

/// `u32::from_str`: the number that `s` writes, or `None` where it writes none
/// or one too large for a `u32`.
pub fn parse_u32(s: &str) -> (r: Option<u32>)
    ensures
        r == parsed_u32(s@),
{
    let n = s.unicode_len();
    let start: usize = if n > 0 && s.get_char(0) == '+' {
        1
    } else {
        0
    };
    let ghost d = unsigned_digits(s@);
    assert(d =~= s@.subrange(start as int, n as int));
    if start == n {
        return None;
    }
    let mut acc: u64 = 0;
    let mut k: usize = start;
    while k < n
        invariant
            n == s@.len(),
            start <= k <= n,
            d == s@.subrange(start as int, n as int),
            d == unsigned_digits(s@),
            forall|i: int| start <= i < k ==> is_digit(#[trigger] s@[i]),
            acc == capped(digits_value(s@.subrange(start as int, k as int))),
        decreases n - k,
    {
        let c = s.get_char(k);
        if !('0' <= c && c <= '9') {
            assert(d[k - start] == c);
            assert(!is_digit(d[k - start]));
            return None;
        }
        let digit: u64 = ((c as u32) - 48) as u64;
        proof {
            let p = s@.subrange(start as int, k as int);
            let q = s@.subrange(start as int, k + 1);
            assert(q.drop_last() =~= p);
            assert(q.last() == c);
            lemma_capped_step(digits_value(p), digit as int);
        }
        let next = acc * 10 + digit;
        acc = if next > 4294967295 {
            4294967296
        } else {
            next
        };
        k = k + 1;
    }
    assert(s@.subrange(start as int, n as int) == d);
    if acc > 4294967295 {
        None
    } else {
        Some(acc as u32)
    }
}

proof fn lemma_decimal_digits(n: nat)
    ensures
        decimal_text(n).len() > 0,
        forall|i: int| 0 <= i < decimal_text(n).len() ==> is_digit(#[trigger] decimal_text(n)[i]),
        digits_value(decimal_text(n)) == n,
    decreases n,
{
    if n < 10 {
        let t = decimal_text(n);
        assert(t.drop_last() =~= Seq::<char>::empty());
        assert(t.last() as int == n + 48);
        assert(digits_value(t) == digits_value(t.drop_last()) * 10 + (t.last() as int - 48));
    } else {
        lemma_decimal_digits(n / 10);
        let t = decimal_text(n);
        assert(t.drop_last() =~= decimal_text(n / 10));
        assert(t.last() as int == (n % 10) + 48);
        assert(n == (n / 10) * 10 + n % 10);
        assert(digits_value(t) == digits_value(t.drop_last()) * 10 + (t.last() as int - 48));
        assert(digits_value(t.drop_last()) == n / 10);
    }
}

/// A number written by `decimal` is read back as itself by `parse_u32`.
pub proof fn lemma_parse_reads_decimal(n: u32)
    ensures
        parsed_u32(decimal_text(n as nat)) == Some(n),
{
    lemma_decimal_digits(n as nat);
    let t = decimal_text(n as nat);
    assert(is_digit(t[0]));
    assert(unsigned_digits(t) == t);
}

} // verus!
