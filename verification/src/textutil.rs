//! Verified text helpers: character-wise string equality and ordering,
//! decimal formatting of integers, and decimal parsing of integers.
//!
//! Boundary values are carried as strings, so the protocol needs exact,
//! self-contained definitions of these small text functions.

use vstd::prelude::*;
use vstd::string::StrSliceExecFns;
use vstd::string::StringExecFns;

verus! {

/// Whether `c` is a decimal digit.
pub open spec fn is_digit(c: char) -> bool {
    '0' <= c && c <= '9'
}

/// The numeric value of a decimal digit character.
pub open spec fn digit_val(c: char) -> int {
    c as int - '0' as int
}

/// Whether every character of `s` is a decimal digit.
pub open spec fn all_digits(s: Seq<char>) -> bool {
    forall|i: int| 0 <= i < s.len() ==> is_digit(#[trigger] s[i])
}

/// The number denoted by a sequence of decimal digits, most significant
/// first.
pub open spec fn digits_val(s: Seq<char>) -> int
    decreases s.len(),
{
    if s.len() == 0 {
        0
    } else {
        digits_val(s.drop_last()) * 10 + digit_val(s.last())
    }
}

/// The single character denoting the decimal digit `d`.
pub open spec fn digit_seq(d: int) -> Seq<char> {
    if d == 0 { "0"@ }
    else if d == 1 { "1"@ }
    else if d == 2 { "2"@ }
    else if d == 3 { "3"@ }
    else if d == 4 { "4"@ }
    else if d == 5 { "5"@ }
    else if d == 6 { "6"@ }
    else if d == 7 { "7"@ }
    else if d == 8 { "8"@ }
    else { "9"@ }
}

/// The canonical decimal digit string of the natural number `n`: no sign
/// and no leading zeros (except for zero itself).
pub open spec fn dec_digits(n: nat) -> Seq<char>
    decreases n,
{
    if n < 10 {
        digit_seq(n as int)
    } else {
        dec_digits(n / 10) + digit_seq((n % 10) as int)
    }
}

/// The canonical decimal string of the integer `n`: a minus sign for
/// negative numbers, then the digits of the magnitude.
pub open spec fn dec_int(n: int) -> Seq<char> {
    if n < 0 {
        "-"@ + dec_digits((-n) as nat)
    } else {
        dec_digits(n as nat)
    }
}

/// Returns the single-character string of the decimal digit `d`.
fn digit_str(d: u128) -> (r: &'static str)
    requires
        d < 10,
    ensures
        r@ == digit_seq(d as int),
{
    if d == 0 { "0" }
    else if d == 1 { "1" }
    else if d == 2 { "2" }
    else if d == 3 { "3" }
    else if d == 4 { "4" }
    else if d == 5 { "5" }
    else if d == 6 { "6" }
    else if d == 7 { "7" }
    else if d == 8 { "8" }
    else { "9" }
}

/// Formats a natural number as its canonical decimal digit string.
pub fn fmt_u128(n: u128) -> (r: String)
    ensures
        r@ == dec_digits(n as nat),
    decreases n,
{
    if n < 10 {
        String::from_str(digit_str(n))
    } else {
        let mut s = fmt_u128(n / 10);
        s.append(digit_str(n % 10));
        s
    }
}

/// Formats a signed integer as its canonical decimal string.
pub fn fmt_i128(n: i128) -> (r: String)
    ensures
        r@ == dec_int(n as int),
{
    if n < 0 {
        let mag: u128 = ((-(n + 1)) as u128) + 1;
        assert(mag == -(n as int));
        let mut s = String::from_str("-");
        let digits = fmt_u128(mag);
        s.append(digits.as_str());
        s
    } else {
        fmt_u128(n as u128)
    }
}

/// Formats a signed 64-bit integer as its canonical decimal string.
pub fn fmt_i64(n: i64) -> (r: String)
    ensures
        r@ == dec_int(n as int),
{
    fmt_i128(n as i128)
}

/// The integer denoted by `s` under the usual decimal grammar: an optional
/// `+` or `-` sign followed by at least one digit, and nothing else.
pub open spec fn int_literal_val(s: Seq<char>) -> Option<int> {
    if s.len() > 0 && (s[0] == '-' || s[0] == '+') {
        let rest = s.subrange(1, s.len() as int);
        if rest.len() > 0 && all_digits(rest) {
            if s[0] == '-' {
                Some(-digits_val(rest))
            } else {
                Some(digits_val(rest))
            }
        } else {
            None
        }
    } else if s.len() > 0 && all_digits(s) {
        Some(digits_val(s))
    } else {
        None
    }
}

/// The value of a digit string is never negative.
proof fn lemma_digits_val_nonneg(s: Seq<char>)
    requires
        all_digits(s),
    ensures
        digits_val(s) >= 0,
    decreases s.len(),
{
    if s.len() > 0 {
        assert forall|i: int| 0 <= i < s.drop_last().len() implies is_digit(
            #[trigger] s.drop_last()[i],
        ) by {
            assert(s.drop_last()[i] == s[i]);
        }
        lemma_digits_val_nonneg(s.drop_last());
    }
}

/// A prefix of a digit string never denotes more than the whole string.
proof fn lemma_digits_val_prefix(s: Seq<char>, i: int)
    requires
        all_digits(s),
        0 <= i <= s.len(),
    ensures
        digits_val(s.subrange(0, i)) <= digits_val(s),
    decreases s.len() - i,
{
    assert forall|j: int, k: int| 0 <= j <= s.len() && 0 <= k < j implies is_digit(
        #[trigger] s.subrange(0, j)[k],
    ) by {
        assert(s.subrange(0, j)[k] == s[k]);
    }
    if i < s.len() {
        lemma_digits_val_prefix(s, i + 1);
        let p = s.subrange(0, i);
        let q = s.subrange(0, i + 1);
        assert(q.drop_last() =~= p);
        lemma_digits_val_nonneg(p);
        assert(digits_val(q) == digits_val(p) * 10 + digit_val(q.last()));
        assert(digit_val(q.last()) >= 0);
        assert(digits_val(p) * 10 >= digits_val(p));
    } else {
        assert(s.subrange(0, i) =~= s);
    }
}

/// Parses the digit-only part of `s` starting at `from`, accumulating into
/// a 128-bit magnitude.  Returns `None` when a non-digit occurs, nothing
/// follows `from`, or the value exceeds `limit`.
fn parse_digits_u128(s: &str, from: usize, limit: u128) -> (r: Option<u128>)
    requires
        from <= s@.len(),
        limit >= 9,
    ensures
        ({
            let rest = s@.subrange(from as int, s@.len() as int);
            match r {
                Some(v) => rest.len() > 0 && all_digits(rest) && v == digits_val(rest)
                    && v <= limit,
                None => rest.len() == 0 || !all_digits(rest) || digits_val(rest) > limit,
            }
        }),
{
    let ghost rest = s@.subrange(from as int, s@.len() as int);
    let n = s.unicode_len();
    if from >= n {
        return None;
    }
    let mut acc: u128 = 0;
    let mut i: usize = from;
    while i < n
        invariant
            from <= i <= n,
            n == s@.len(),
            limit >= 9,
            rest == s@.subrange(from as int, s@.len() as int),
            all_digits(s@.subrange(from as int, i as int)),
            acc == digits_val(s@.subrange(from as int, i as int)),
            acc <= limit,
        decreases n - i,
    {
        let c = s.get_char(i);
        let cv = c as u32;
        if cv < 48 || cv > 57 {
            assert(!is_digit(s@[i as int]));
            assert(!all_digits(rest)) by {
                assert(rest[i - from] == s@[i as int]);
            }
            return None;
        }
        assert(is_digit(s@[i as int]));
        let d: u128 = (cv - 48) as u128;
        assert(d == digit_val(s@[i as int]));
        proof {
            let done = s@.subrange(from as int, i as int);
            let next = s@.subrange(from as int, i + 1 as int);
            assert(next.drop_last() =~= done);
            assert(next.last() == s@[i as int]);
            assert(digits_val(next) == acc * 10 + d);
        }
        let q: u128 = (limit - d) / 10;
        if acc > q {
            proof {
                let next = s@.subrange(from as int, i + 1 as int);
                assert(q * 10 + 9 >= limit - d) by {
                    assert((limit - d) % 10 <= 9);
                    assert(limit - d == 10 * ((limit - d) / 10) + (limit - d) % 10);
                }
                assert(acc * 10 >= (q + 1) * 10);
                assert(digits_val(next) > limit);
                assert forall|k: int| 0 <= k < next.len() implies is_digit(
                    #[trigger] next[k],
                ) by {
                    assert(next[k] == s@[k + from]);
                }
                if all_digits(rest) {
                    assert(next =~= rest.subrange(0, i + 1 - from));
                    lemma_digits_val_prefix(rest, i + 1 - from);
                }
            }
            return None;
        }
        assert(acc * 10 <= limit - d) by {
            assert(acc * 10 <= q * 10);
            assert(q * 10 <= limit - d) by {
                assert(limit - d == 10 * ((limit - d) / 10) + (limit - d) % 10);
                assert((limit - d) % 10 >= 0);
            }
        }
        let next_acc: u128 = acc * 10 + d;
        if next_acc > limit {
            proof {
                let next = s@.subrange(from as int, i + 1 as int);
                assert(digits_val(next) > limit);
                assert forall|k: int| 0 <= k < next.len() implies is_digit(
                    #[trigger] next[k],
                ) by {
                    assert(next[k] == s@[k + from]);
                }
                if all_digits(rest) {
                    assert(next =~= rest.subrange(0, i + 1 - from));
                    lemma_digits_val_prefix(rest, i + 1 - from);
                }
            }
            return None;
        }
        acc = next_acc;
        i = i + 1;
    }
    assert(s@.subrange(from as int, i as int) =~= rest);
    Some(acc)
}

/// Whether `s` denotes an integer representable as an `i128`.
pub open spec fn parse_i128_spec(s: Seq<char>) -> Option<i128> {
    match int_literal_val(s) {
        Some(v) => if i128::MIN <= v <= i128::MAX {
            Some(v as i128)
        } else {
            None
        },
        None => None,
    }
}

/// Parses `s` as a decimal `i128`: an optional sign, then digits, rejected
/// when malformed or out of range.
pub fn parse_i128(s: &str) -> (r: Option<i128>)
    ensures
        r == parse_i128_spec(s@),
{
    let n = s.unicode_len();
    if n == 0 {
        return None;
    }
    let first = s.get_char(0);
    let negative = first == '-';
    let signed = negative || first == '+';
    let from: usize = if signed { 1 } else { 0 };
    proof {
        if !signed {
            assert(s@.subrange(0, s@.len() as int) =~= s@);
        }
    }
    let limit: u128 = if negative {
        0x8000_0000_0000_0000_0000_0000_0000_0000u128
    } else {
        0x7fff_ffff_ffff_ffff_ffff_ffff_ffff_ffffu128
    };
    match parse_digits_u128(s, from, limit) {
        Some(mag) => {
            if negative {
                if mag == 0x8000_0000_0000_0000_0000_0000_0000_0000u128 {
                    Some(i128::MIN)
                } else {
                    Some(-(mag as i128))
                }
            } else {
                Some(mag as i128)
            }
        },
        None => {
            proof {
                let rest = s@.subrange(from as int, s@.len() as int);
                if rest.len() > 0 && all_digits(rest) {
                    lemma_digits_val_nonneg(rest);
                }
            }
            None
        },
    }
}

/// Parses `s` as a decimal `u8` with an optional leading `+`, rejected when
/// malformed, negative, or above `u8::MAX`.
pub fn parse_u8(s: &str) -> (r: Option<u8>)
    ensures
        ({
            match int_literal_val(s@) {
                Some(v) => if 0 <= v <= u8::MAX && (s@.len() == 0 || s@[0] != '-') {
                    r == Some(v as u8)
                } else {
                    r is None
                },
                None => r is None,
            }
        }),
{
    let n = s.unicode_len();
    if n == 0 {
        return None;
    }
    let first = s.get_char(0);
    if first == '-' {
        return None;
    }
    let from: usize = if first == '+' { 1 } else { 0 };
    proof {
        if first != '+' {
            assert(s@.subrange(0, s@.len() as int) =~= s@);
        }
    }
    match parse_digits_u128(s, from, 255) {
        Some(v) => Some(v as u8),
        None => {
            proof {
                let rest = s@.subrange(from as int, s@.len() as int);
                if rest.len() > 0 && all_digits(rest) {
                    lemma_digits_val_nonneg(rest);
                }
            }
            None
        },
    }
}

/// `s` with every leading `M` removed.
pub open spec fn trim_m(s: Seq<char>) -> Seq<char>
    decreases s.len(),
{
    if s.len() > 0 && s[0] == 'M' {
        trim_m(s.drop_first())
    } else {
        s
    }
}

/// Skipping a prefix of `M` characters reaches the trimmed remainder.
proof fn lemma_trim_m(s: Seq<char>, i: int)
    requires
        0 <= i <= s.len(),
        forall|j: int| 0 <= j < i ==> s[j] == 'M',
        i < s.len() ==> s[i] != 'M',
    ensures
        trim_m(s) == s.skip(i),
    decreases i,
{
    if i == 0 {
        assert(s.skip(0) =~= s);
    } else {
        assert(s[0] == 'M');
        let t = s.drop_first();
        assert forall|j: int| 0 <= j < i - 1 implies t[j] == 'M' by {
            assert(t[j] == s[j + 1]);
        }
        if i - 1 < t.len() {
            assert(t[i - 1] == s[i]);
        }
        lemma_trim_m(t, i - 1);
        assert(t.skip(i - 1) =~= s.skip(i));
    }
}

/// Strips the leading `M` characters from a month code.
pub fn strip_month_prefix(s: &str) -> (r: &str)
    ensures
        r@ == trim_m(s@),
{
    let n = s.unicode_len();
    let mut i: usize = 0;
    while i < n
        invariant
            0 <= i <= n,
            n == s@.len(),
            forall|j: int| 0 <= j < i ==> s@[j] == 'M',
        decreases n - i,
    {
        if s.get_char(i) != 'M' {
            proof {
                lemma_trim_m(s@, i as int);
            }
            let r = s.substring_char(i, n);
            assert(r@ =~= s@.skip(i as int));
            return r;
        }
        i = i + 1;
    }
    proof {
        lemma_trim_m(s@, i as int);
    }
    let r = s.substring_char(i, n);
    assert(r@ =~= s@.skip(i as int));
    r
}

/// Reduces a 32-bit value to its low byte, as the narrowing cast does.
pub fn trunc_u8(x: i32) -> (r: u8)
    ensures
        r as int == (x as int) % 256,
{
    let m: i32 = x % 256;
    let m2: i32 = if m < 0 { m + 256 } else { m };
    m2 as u8
}

/// Reduces a 32-bit value to its low 16 bits, as the narrowing cast does.
pub fn trunc_u16(x: i32) -> (r: u16)
    ensures
        r as int == (x as int) % 65536,
{
    let m: i32 = x % 65536;
    let m2: i32 = if m < 0 { m + 65536 } else { m };
    m2 as u16
}

/// Reduces a 64-bit value to its low 32 bits, as the narrowing cast
/// does.
pub fn trunc_u32(x: i64) -> (r: u32)
    ensures
        r as int == (x as int) % 4294967296,
{
    let m: i64 = x % 4294967296;
    let m2: i64 = if m < 0 { m + 4294967296 } else { m };
    m2 as u32
}

/// Character-wise string equality.
pub fn str_eq(a: &str, b: &str) -> (r: bool)
    ensures
        r == (a@ == b@),
{
    let na = a.unicode_len();
    let nb = b.unicode_len();
    if na != nb {
        assert(a@ != b@);
        return false;
    }
    let mut i: usize = 0;
    while i < na
        invariant
            0 <= i <= na,
            na == a@.len(),
            na == b@.len(),
            forall|j: int| 0 <= j < i ==> a@[j] == b@[j],
        decreases na - i,
    {
        if a.get_char(i) != b.get_char(i) {
            assert(a@ != b@);
            return false;
        }
        i = i + 1;
    }
    assert(a@ =~= b@);
    true
}

/// Character-wise lexicographic ordering of two strings: -1, 0, or 1.
pub open spec fn lex_cmp(a: Seq<char>, b: Seq<char>) -> int
    decreases a.len(),
{
    if a.len() == 0 && b.len() == 0 {
        0
    } else if a.len() == 0 {
        -1
    } else if b.len() == 0 {
        1
    } else if (a[0] as int) < (b[0] as int) {
        -1
    } else if (a[0] as int) > (b[0] as int) {
        1
    } else {
        lex_cmp(a.drop_first(), b.drop_first())
    }
}

/// Compares two strings character by character, returning -1, 0, or 1.
pub fn str_lex_cmp(a: &str, b: &str) -> (r: i32)
    ensures
        r == lex_cmp(a@, b@),
{
    let na = a.unicode_len();
    let nb = b.unicode_len();
    proof {
        assert(a@.skip(0) =~= a@);
        assert(b@.skip(0) =~= b@);
    }
    let mut i: usize = 0;
    while i < na && i < nb
        invariant
            0 <= i,
            i <= na,
            i <= nb,
            na == a@.len(),
            nb == b@.len(),
            lex_cmp(a@, b@) == lex_cmp(a@.skip(i as int), b@.skip(i as int)),
        decreases na - i,
    {
        let ca = a.get_char(i) as u32;
        let cb = b.get_char(i) as u32;
        proof {
            let sa = a@.skip(i as int);
            let sb = b@.skip(i as int);
            assert(sa[0] == a@[i as int]);
            assert(sb[0] == b@[i as int]);
            assert(sa.drop_first() =~= a@.skip(i + 1));
            assert(sb.drop_first() =~= b@.skip(i + 1));
        }
        if ca < cb {
            return -1;
        }
        if ca > cb {
            return 1;
        }
        assert(a@[i as int] == b@[i as int]);
        i = i + 1;
    }
    proof {
        let sa = a@.skip(i as int);
        let sb = b@.skip(i as int);
        assert(sa.len() == na - i);
        assert(sb.len() == nb - i);
        if na != nb && i < na {
            assert(sa.len() > 0 && sb.len() == 0);
        }
    }
    if na == nb {
        0
    } else if na < nb {
        -1
    } else {
        1
    }
}

} // verus!
