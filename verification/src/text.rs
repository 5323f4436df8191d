//! Verified text utilities: character-wise string equality, decimal
//! rendering of integers, and decimal parsing into `u32`.

use vstd::prelude::*;
use vstd::string::StringExecFns;

verus! {

/// Character-wise equality of two string slices.
pub fn str_eq(a: &str, b: &str) -> (r: bool)
    ensures
        r == (a@ == b@),
{
    let alen = a.unicode_len();
    let blen = b.unicode_len();
    if alen != blen {
        return false;
    }
    let mut i: usize = 0;
    while i < alen
        invariant
            alen == a@.len(),
            blen == b@.len(),
            alen == blen,
            0 <= i <= alen,
            forall|j: int| 0 <= j < i ==> a@[j] == b@[j],
        decreases alen - i,
    {
        if a.get_char(i) != b.get_char(i) {
            return false;
        }
        i += 1;
    }
    proof {
        assert(a@ =~= b@);
    }
    true
}

/// The single decimal digit `d` as a one-character sequence.
pub open spec fn spec_digit(d: u64) -> Seq<char> {
    if d == 0 {
        "0"@
    } else if d == 1 {
        "1"@
    } else if d == 2 {
        "2"@
    } else if d == 3 {
        "3"@
    } else if d == 4 {
        "4"@
    } else if d == 5 {
        "5"@
    } else if d == 6 {
        "6"@
    } else if d == 7 {
        "7"@
    } else if d == 8 {
        "8"@
    } else {
        "9"@
    }
}

/// The decimal rendering of `n`, without padding or sign.
pub open spec fn spec_u64_digits(n: u64) -> Seq<char>
    decreases n,
{
    if n < 10 {
        spec_digit(n)
    } else {
        spec_u64_digits(n / 10) + spec_digit(n % 10)
    }
}

fn digit_str(d: u64) -> (r: &'static str)
    requires
        d < 10,
    ensures
        r@ == spec_digit(d),
{
    if d == 0 {
        "0"
    } else if d == 1 {
        "1"
    } else if d == 2 {
        "2"
    } else if d == 3 {
        "3"
    } else if d == 4 {
        "4"
    } else if d == 5 {
        "5"
    } else if d == 6 {
        "6"
    } else if d == 7 {
        "7"
    } else if d == 8 {
        "8"
    } else {
        "9"
    }
}

/// Appends the decimal rendering of `n` to `s`.
pub fn push_u64_digits(s: &mut String, n: u64)
    ensures
        final(s)@ == old(s)@ + spec_u64_digits(n),
    decreases n,
{
    if n >= 10 {
        push_u64_digits(s, n / 10);
    }
    s.append(digit_str(n % 10));
    proof {
        if n < 10 {
            assert(n % 10 == n);
        }
        assert(s@ =~= old(s)@ + spec_u64_digits(n));
    }
}

/// The decimal rendering of `n` as a fresh string.
pub fn u64_to_string(n: u64) -> (r: String)
    ensures
        r@ == spec_u64_digits(n),
{
    let mut s = String::new();
    push_u64_digits(&mut s, n);
    proof {
        assert(s@ =~= spec_u64_digits(n));
    }
    s
}

/// Whether `c` is one of the whitespace characters trimmed from around a
/// release label: space, tab, newline or carriage return.
pub open spec fn is_space(c: char) -> bool {
    c == ' ' || c == '\t' || c == '\n' || c == '\r'
}

/// `s` without its leading whitespace.
pub open spec fn spec_trim_start(s: Seq<char>) -> Seq<char>
    decreases s.len(),
{
    if s.len() > 0 && is_space(s.first()) {
        spec_trim_start(s.drop_first())
    } else {
        s
    }
}

/// `s` without its trailing whitespace.
pub open spec fn spec_trim_end(s: Seq<char>) -> Seq<char>
    decreases s.len(),
{
    if s.len() > 0 && is_space(s.last()) {
        spec_trim_end(s.drop_last())
    } else {
        s
    }
}

/// `s` without its surrounding whitespace.
pub open spec fn spec_trim(s: Seq<char>) -> Seq<char> {
    spec_trim_end(spec_trim_start(s))
}

fn is_space_char(c: char) -> (r: bool)
    ensures
        r == is_space(c),
{
    c == ' ' || c == '\t' || c == '\n' || c == '\r'
}

fn skip_spaces(s: &str, i: usize) -> (r: usize)
    requires
        i <= s@.len(),
    ensures
        i <= r <= s@.len(),
        spec_trim_start(s@.skip(i as int)) == s@.skip(r as int),
    decreases s@.len() - i,
{
    if i < s.unicode_len() {
        let c = s.get_char(i);
        if is_space_char(c) {
            proof {
                assert(s@.skip(i as int).drop_first() =~= s@.skip(i + 1));
            }
            return skip_spaces(s, i + 1);
        }
    }
    proof {
        if i == s@.len() {
            assert(s@.skip(i as int) =~= Seq::<char>::empty());
        } else {
            assert(s@.skip(i as int).first() == s@[i as int]);
        }
    }
    i
}

fn rskip_spaces(s: &str, i: usize, end: usize) -> (r: usize)
    requires
        i <= end <= s@.len(),
    ensures
        i <= r <= end,
        spec_trim_end(s@.subrange(i as int, end as int)) == s@.subrange(i as int, r as int),
    decreases end,
{
    if end > i {
        let c = s.get_char(end - 1);
        if is_space_char(c) {
            proof {
                assert(s@.subrange(i as int, end as int).last() == s@[end - 1]);
                assert(s@.subrange(i as int, end as int).drop_last() =~= s@.subrange(
                    i as int,
                    end - 1,
                ));
            }
            return rskip_spaces(s, i, end - 1);
        }
    }
    proof {
        if end == i {
            assert(s@.subrange(i as int, end as int) =~= Seq::<char>::empty());
        } else {
            assert(s@.subrange(i as int, end as int).last() == s@[end - 1]);
        }
    }
    end
}

/// Removes surrounding whitespace (space, tab, newline, carriage return)
/// from `s`.
pub fn trim(s: &str) -> (r: String)
    ensures
        r@ == spec_trim(s@),
{
    let n = s.unicode_len();
    let start = skip_spaces(s, 0);
    let end = rskip_spaces(s, start, n);
    proof {
        assert(s@.skip(0) =~= s@);
        assert(s@.skip(start as int) =~= s@.subrange(start as int, n as int));
    }
    let r = s.substring_char(start, end);
    r.to_owned()
}

/// Whether `c` is an ASCII decimal digit.
pub open spec fn is_dec_digit(c: char) -> bool {
    '0' <= c && c <= '9'
}

/// The value of a sequence of decimal digits, most significant first.
pub open spec fn spec_digits_val(s: Seq<char>) -> int
    decreases s.len(),
{
    if s.len() == 0 {
        0
    } else {
        spec_digits_val(s.drop_last()) * 10 + (s.last() as int - '0' as int)
    }
}

/// What parsing `s` as an unsigned 32-bit decimal number yields: its value
/// when `s` is a non-empty, all-digit sequence whose value fits, `None`
/// otherwise.
pub open spec fn spec_parse_u32(s: Seq<char>) -> Option<u32> {
    if s.len() > 0 && (forall|i: int| 0 <= i < s.len() ==> is_dec_digit(#[trigger] s[i]))
        && spec_digits_val(s) <= u32::MAX {
        Some(spec_digits_val(s) as u32)
    } else {
        None
    }
}

proof fn lemma_digits_val_nonneg(s: Seq<char>)
    requires
        forall|i: int| 0 <= i < s.len() ==> is_dec_digit(#[trigger] s[i]),
    ensures
        spec_digits_val(s) >= 0,
    decreases s.len(),
{
    if s.len() > 0 {
        lemma_digits_val_nonneg(s.drop_last());
    }
}

proof fn lemma_digits_val_take_le(s: Seq<char>, i: int)
    requires
        forall|j: int| 0 <= j < s.len() ==> is_dec_digit(#[trigger] s[j]),
        0 <= i <= s.len(),
    ensures
        spec_digits_val(s.take(i)) <= spec_digits_val(s),
    decreases s.len(),
{
    if i == s.len() {
        assert(s.take(i) =~= s);
    } else {
        assert(s.drop_last() =~= s.take(s.len() - 1));
        assert(s.take(i) =~= s.drop_last().take(i));
        lemma_digits_val_take_le(s.drop_last(), i);
        lemma_digits_val_nonneg(s.drop_last());
    }
}

/// Parses `s` as an unsigned 32-bit decimal number, rejecting the empty
/// string, any non-digit character and any value above `u32::MAX`.
pub fn parse_u32(s: &str) -> (r: Option<u32>)
    ensures
        r == spec_parse_u32(s@),
{
    let n = s.unicode_len();
    if n == 0 {
        return None;
    }
    let mut i: usize = 0;
    let mut acc: u64 = 0;
    while i < n
        invariant
            n == s@.len(),
            0 <= i <= n,
            forall|j: int| 0 <= j < i ==> is_dec_digit(#[trigger] s@[j]),
            acc == spec_digits_val(s@.take(i as int)),
            acc <= u32::MAX,
        decreases n - i,
    {
        let c = s.get_char(i);
        if c < '0' || c > '9' {
            return None;
        }
        let d: u64 = (c as u64) - ('0' as u64);
        let next: u64 = acc * 10 + d;
        proof {
            assert(s@.take(i + 1).drop_last() =~= s@.take(i as int));
            assert(s@.take(i + 1).last() == s@[i as int]);
        }
        if next > u32::MAX as u64 {
            proof {
                if forall|j: int| 0 <= j < s@.len() ==> is_dec_digit(#[trigger] s@[j]) {
                    lemma_digits_val_take_le(s@, i + 1);
                }
            }
            return None;
        }
        acc = next;
        i += 1;
    }
    proof {
        assert(s@.take(n as int) =~= s@);
    }
    Some(acc as u32)
}

} // verus!
