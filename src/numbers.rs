//! Decimal digits and thousands grouping.
use vstd::prelude::*;
use crate::parse::{find_from, lemma_find_from_bounds};
use crate::text::{chars_of, push_char, push_range};

verus! {

/// The character of a decimal digit `d` (0 to 9).
pub open spec fn digit_char(d: nat) -> char {
    (d + 48) as char
}

/// The decimal digits of `n`, most significant first, without leading zeros.
pub open spec fn decimal(n: nat) -> Seq<char>
    decreases n,
{
    if n < 10 {
        seq![digit_char(n)]
    } else {
        decimal(n / 10).push(digit_char(n % 10))
    }
}

/// The first `k` characters of `s`, with a comma put before each character at an
/// index `i > 0` such that the number of characters from `i` to the end of `s` is
/// a multiple of three.
pub open spec fn grouped_prefix(s: Seq<char>, k: int) -> Seq<char>
    decreases k,
{
    if k <= 0 {
        Seq::empty()
    } else {
        let sep: Seq<char> = if k - 1 > 0 && (s.len() - (k - 1)) % 3 == 0 {
            seq![',']
        } else {
            Seq::empty()
        };
        (grouped_prefix(s, k - 1) + sep).push(s[k - 1])
    }
}

/// `s` grouped by threes from the right with commas: `"1234567"` gives `"1,234,567"`.
pub open spec fn with_commas(s: Seq<char>) -> Seq<char> {
    grouped_prefix(s, s.len() as int)
}

/// The text of a number with commas in its integer part: a leading `-` is kept
/// aside, the characters up to the first `.` are grouped by threes, and the `.`
/// with everything after it is kept as it is.
pub open spec fn comma_text(s: Seq<char>) -> Seq<char> {
    let neg = s.len() > 0 && s[0] == '-';
    let start: int = if neg { 1 } else { 0 };
    let dot = find_from(s, '.', start);
    let sign: Seq<char> = if neg { seq!['-'] } else { Seq::empty() };
    sign + with_commas(s.subrange(start, dot)) + s.subrange(dot, s.len() as int)
}

pub open spec fn is_digit(c: char) -> bool {
    '0' <= c <= '9'
}

pub open spec fn all_digits(s: Seq<char>) -> bool {
    forall|i: int| 0 <= i < s.len() ==> is_digit(#[trigger] s[i])
}

/// The value of a string of decimal digits.
pub open spec fn digits_value(s: Seq<char>) -> nat
    decreases s.len(),
{
    if s.len() == 0 {
        0
    } else {
        digits_value(s.drop_last()) * 10 + ((s.last() as int) - 48) as nat
    }
}

/// `s` read as a base-10 signed 64-bit integer: an optional `+` or `-`, then one or
/// more digits, with a value that fits the type; `None` for anything else.
pub open spec fn parse_i64(s: Seq<char>) -> Option<int> {
    let signed = s.len() > 0 && (s[0] == '-' || s[0] == '+');
    let body = if signed { s.drop_first() } else { s };
    let v: int = if s.len() > 0 && s[0] == '-' { -digits_value(body) } else { digits_value(body) as int };
    if body.len() > 0 && all_digits(body) && i64::MIN <= v <= i64::MAX {
        Some(v)
    } else {
        None
    }
}

/// An integer written with a `-` for negatives and its digits grouped by threes.
pub open spec fn number_text(v: int) -> Seq<char> {
    if v < 0 {
        seq!['-'] + with_commas(decimal((-v) as nat))
    } else {
        with_commas(decimal(v as nat))
    }
}

/// The text of a number-tagged span: rewritten when it reads as an integer,
/// otherwise unchanged.
pub open spec fn format_number_spec(s: Seq<char>) -> Seq<char> {
    match parse_i64(s) {
        Some(v) => number_text(v),
        None => s,
    }
}

fn digit_char_exec(d: u64) -> (c: char)
    requires
        d < 10,
    ensures
        c == digit_char(d as nat),
{
    let b: u8 = d as u8;
    (b + 48) as char
}

/// Appends the decimal digits of `n`.
pub(crate) fn push_decimal(out: &mut String, n: u64)
    ensures
        final(out)@ == old(out)@ + decimal(n as nat),
    decreases n,
{
    if n >= 10 {
        push_decimal(out, n / 10);
    }
    push_char(out, digit_char_exec(n % 10));
    assert(final(out)@ =~= old(out)@ + decimal(n as nat));
}

/// Appends `v[from..to]` grouped by threes with commas.
fn push_grouped(out: &mut String, v: &Vec<char>, from: usize, to: usize)
    requires
        from <= to <= v@.len(),
    ensures
        final(out)@ == old(out)@ + with_commas(v@.subrange(from as int, to as int)),
{
    let ghost s = v@.subrange(from as int, to as int);
    let len: usize = to - from;
    let mut k: usize = 0;
    while k < len
        invariant
            s == v@.subrange(from as int, to as int),
            len == s.len(),
            from + len == to <= v@.len(),
            k <= len,
            out@ == old(out)@ + grouped_prefix(s, k as int),
        decreases len - k,
    {
        if k > 0 && (len - k) % 3 == 0 {
            push_char(out, ',');
        }
        push_char(out, v[from + k]);
        assert(out@ =~= old(out)@ + grouped_prefix(s, k + 1));
        k = k + 1;
    }
}

/// Writes a number's text with commas grouping the digits of its integer part by
/// threes (`"-1234567.25"` gives `"-1,234,567.25"`); a leading `-` and the part from
/// the first `.` on are kept as they are.
pub fn comma_string(s: &str) -> (r: String)
    ensures
        r@ == comma_text(s@),
{
    let v = chars_of(s);
    let n = v.len();
    let neg = n > 0 && v[0] == '-';
    let start: usize = if neg { 1 } else { 0 };
    let dot = crate::parse::find_char_from(&v, '.', start);
    proof {
        lemma_find_from_bounds(v@, '.', start as int);
    }
    let mut r = String::new();
    if neg {
        push_char(&mut r, '-');
    }
    push_grouped(&mut r, &v, start, dot);
    push_range(&mut r, &v, dot, n);
    assert(r@ =~= comma_text(s@));
    r
}

/// Formats `n` by its `Display` text, with commas as [`comma_string`] puts them:
/// `1234567` gives `"1,234,567"`, `-1005.2` gives `"-1,005.2"`.
pub fn to_comma_string<T: std::fmt::Display>(n: T) -> (r: String)
    ensures
        exists|s: String|
            #[trigger] vstd::string::to_string_from_display_ensures::<T>(&n, s) && r@ == comma_text(
                s@,
            ),
{
    let s = n.to_string();
    let r = comma_string(s.as_str());
    assert(vstd::string::to_string_from_display_ensures::<T>(&n, s) && r@ == comma_text(s@));
    r
}

proof fn lemma_digits_value_prefix(s: Seq<char>, k: int)
    requires
        0 <= k <= s.len(),
    ensures
        digits_value(s.subrange(0, k)) <= digits_value(s),
    decreases s.len(),
{
    if k < s.len() {
        lemma_digits_value_prefix(s.drop_last(), k);
        assert(s.drop_last().subrange(0, k) =~= s.subrange(0, k));
    } else {
        assert(s.subrange(0, k) =~= s);
    }
}

/// Rewrites `s` as [`number_text`] of its value when it reads as a signed 64-bit
/// integer, and returns it unchanged otherwise.
pub fn format_number(s: &str) -> (r: String)
    ensures
        r@ == format_number_spec(s@),
{
    let v = chars_of(s);
    let n = v.len();
    let neg = n > 0 && v[0] == '-';
    let start: usize = if n > 0 && (v[0] == '-' || v[0] == '+') { 1 } else { 0 };
    let ghost body = v@.subrange(start as int, n as int);
    assert(body =~= (if start == 1 { s@.drop_first() } else { s@ }));
    if start >= n {
        return String::from_str(s);
    }
    let limit: u128 = if neg { 9223372036854775808 } else { 9223372036854775807 };
    let mut acc: u128 = 0;
    let mut j: usize = start;
    while j < n
        invariant
            v@ == s@,
            n == v@.len(),
            start <= j <= n,
            body == v@.subrange(start as int, n as int),
            body == (if start == 1 { s@.drop_first() } else { s@ }),
            start == (if n > 0 && (s@[0] == '-' || s@[0] == '+') { 1usize } else { 0usize }),
            neg == (n > 0 && s@[0] == '-'),
            all_digits(v@.subrange(start as int, j as int)),
            acc == digits_value(v@.subrange(start as int, j as int)),
            acc <= limit,
            limit == (if neg { 9223372036854775808u128 } else { 9223372036854775807u128 }),
        decreases n - j,
    {
        let c = v[j];
        let ghost pre = v@.subrange(start as int, j as int);
        assert(v@.subrange(start as int, j + 1) =~= pre.push(c));
        assert(pre.push(c).drop_last() =~= pre);
        if !('0' <= c && c <= '9') {
            assert(body[j - start] == c);
            assert(!all_digits(body));
            assert(parse_i64(s@) is None);
            return String::from_str(s);
        }
        let d: u128 = (c as u32 - 48) as u128;
        acc = acc * 10 + d;
        if acc > limit {
            proof {
                if all_digits(body) {
                    lemma_digits_value_prefix(body, j + 1 - start);
                    assert(body.subrange(0, j + 1 - start) =~= pre.push(c));
                }
                assert(digits_value(pre.push(c)) == acc);
                assert(parse_i64(s@) is None);
            }
            return String::from_str(s);
        }
        j = j + 1;
    }
    assert(v@.subrange(start as int, n as int) =~= body);
    let mut r = String::new();
    if neg && acc > 0 {
        push_char(&mut r, '-');
    }
    let mut digits = String::new();
    push_decimal(&mut digits, acc as u64);
    let dv = chars_of(digits.as_str());
    push_grouped(&mut r, &dv, 0, dv.len());
    assert(dv@.subrange(0, dv@.len() as int) =~= decimal(acc as nat));
    assert(r@ =~= format_number_spec(s@));
    r
}

} // verus!
