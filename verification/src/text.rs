//! Text utilities shared across the crate: character classes, decimal
//! numbers, and string comparison.

use vstd::prelude::*;

verus! {

broadcast use vstd::seq::group_seq_axioms;

/// The characters Rust's `char::is_whitespace` accepts (the Unicode
/// `White_Space` property).
pub open spec fn is_whitespace_char(c: char) -> bool {
    c == ' ' || c == '\t' || c == '\n' || c == '\u{b}' || c == '\u{c}' || c == '\r'
        || c == '\u{85}' || c == '\u{a0}' || c == '\u{1680}'
        || ('\u{2000}' <= c && c <= '\u{200a}')
        || c == '\u{2028}' || c == '\u{2029}' || c == '\u{202f}' || c == '\u{205f}'
        || c == '\u{3000}'
}

pub fn whitespace_char(c: char) -> (r: bool)
    ensures
        r == is_whitespace_char(c),
{
    c == ' ' || c == '\t' || c == '\n' || c == '\u{b}' || c == '\u{c}' || c == '\r'
        || c == '\u{85}' || c == '\u{a0}' || c == '\u{1680}'
        || ('\u{2000}' <= c && c <= '\u{200a}')
        || c == '\u{2028}' || c == '\u{2029}' || c == '\u{202f}' || c == '\u{205f}'
        || c == '\u{3000}'
}

pub open spec fn is_ascii_digit(c: char) -> bool {
    '0' <= c && c <= '9'
}

pub fn ascii_digit(c: char) -> (r: bool)
    ensures
        r == is_ascii_digit(c),
{
    '0' <= c && c <= '9'
}

/// An ASCII letter, as `c.is_ascii() && c.is_alphabetic()` accepts.
pub open spec fn is_ascii_letter(c: char) -> bool {
    ('a' <= c && c <= 'z') || ('A' <= c && c <= 'Z')
}

pub fn ascii_letter(c: char) -> (r: bool)
    ensures
        r == is_ascii_letter(c),
{
    ('a' <= c && c <= 'z') || ('A' <= c && c <= 'Z')
}

pub open spec fn digit_value(c: char) -> nat
    recommends
        is_ascii_digit(c),
{
    ((c as int) - ('0' as int)) as nat
}

/// Whether two strings hold the same characters.
pub fn str_eq(a: &str, b: &str) -> (r: bool)
    ensures
        r == (a@ == b@),
{
    let alen = a.unicode_len();
    let blen = b.unicode_len();
    if alen != blen {
        proof {
            assert(a@.len() != b@.len());
        }
        return false;
    }
    let mut i: usize = 0;
    while i < alen
        invariant
            i <= alen,
            alen == a@.len(),
            alen == b@.len(),
            forall|j: int| 0 <= j < i ==> a@[j] == b@[j],
        decreases alen - i,
    {
        if a.get_char(i) != b.get_char(i) {
            return false;
        }
        i = i + 1;
    }
    proof {
        assert(a@ =~= b@);
    }
    true
}

/// The failure modes of reading a `u16` from decimal text, mirroring
/// the cases of `std`'s integer parsing for an unsigned type.
#[derive(Debug, PartialEq, Eq, Structural, Clone, Copy)]
pub enum ParseU16Error {
    Empty,
    InvalidDigit,
    PosOverflow,
}

/// One step of decimal accumulation over the digit characters `s`,
/// starting from `acc`.
pub open spec fn spec_parse_digits(s: Seq<char>, acc: nat) -> Result<u16, ParseU16Error>
    decreases s.len(),
{
    if s.len() == 0 {
        Ok(acc as u16)
    } else if !is_ascii_digit(s[0]) {
        Err(ParseU16Error::InvalidDigit)
    } else if acc * 10 + digit_value(s[0]) > 0xffff {
        Err(ParseU16Error::PosOverflow)
    } else {
        spec_parse_digits(s.subrange(1, s.len() as int), acc * 10 + digit_value(s[0]))
    }
}

/// What `str::parse::<u16>` returns on `s`: an optional leading `+`,
/// then decimal digits, failing on the first bad or overflowing digit.
pub open spec fn spec_parse_u16(s: Seq<char>) -> Result<u16, ParseU16Error> {
    if s.len() == 0 {
        Err(ParseU16Error::Empty)
    } else {
        let body = if s[0] == '+' {
            s.subrange(1, s.len() as int)
        } else {
            s
        };
        if body.len() == 0 {
            Err(ParseU16Error::InvalidDigit)
        } else {
            spec_parse_digits(body, 0)
        }
    }
}

/// Reads a `u16` from decimal text.
pub fn parse_u16(s: &str) -> (r: Result<u16, ParseU16Error>)
    ensures
        r == spec_parse_u16(s@),
{
    let len = s.unicode_len();
    if len == 0 {
        return Err(ParseU16Error::Empty);
    }
    let mut i: usize = 0;
    if s.get_char(0) == '+' {
        i = 1;
        if len == 1 {
            proof {
                assert(s@.subrange(1, s@.len() as int).len() == 0);
            }
            return Err(ParseU16Error::InvalidDigit);
        }
    }
    let ghost body = if s@[0] == '+' {
        s@.subrange(1, s@.len() as int)
    } else {
        s@
    };
    proof {
        assert(s@.subrange(0, s@.len() as int) =~= s@);
    }
    let mut acc: u32 = 0;
    while i < len
        invariant
            i <= len,
            len == s@.len(),
            body == (if s@[0] == '+' { s@.subrange(1, s@.len() as int) } else { s@ }),
            i >= (if s@[0] == '+' { 1int } else { 0int }),
            acc <= 0xffff,
            body.len() > 0,
            spec_parse_digits(body, 0) == spec_parse_digits(
                s@.subrange(i as int, len as int),
                acc as nat,
            ),
        decreases len - i,
    {
        let c = s.get_char(i);
        let ghost rest = s@.subrange(i as int, len as int);
        proof {
            assert(rest[0] == s@[i as int]);
            assert(rest.subrange(1, rest.len() as int) =~= s@.subrange(
                i + 1,
                len as int,
            ));
        }
        if !ascii_digit(c) {
            return Err(ParseU16Error::InvalidDigit);
        }
        let d: u32 = (c as u32) - 48;
        let next: u32 = acc * 10 + d;
        if next > 0xffff {
            return Err(ParseU16Error::PosOverflow);
        }
        acc = next;
        i = i + 1;
    }
    proof {
        assert(s@.subrange(i as int, len as int).len() == 0);
    }
    Ok(acc as u16)
}

/// The message `std`'s integer parse error displays for each failure.
pub fn parse_u16_error_message(e: ParseU16Error) -> (r: &'static str)
    ensures
        e is Empty ==> r@ == "cannot parse integer from empty string"@,
        e is InvalidDigit ==> r@ == "invalid digit found in string"@,
        e is PosOverflow ==> r@ == "number too large to fit in target type"@,
{
    match e {
        ParseU16Error::Empty => "cannot parse integer from empty string",
        ParseU16Error::InvalidDigit => "invalid digit found in string",
        ParseU16Error::PosOverflow => "number too large to fit in target type",
    }
}

/// The text with leading whitespace removed.
pub open spec fn spec_trim_start(s: Seq<char>) -> Seq<char>
    decreases s.len(),
{
    if s.len() > 0 && is_whitespace_char(s[0]) {
        spec_trim_start(s.subrange(1, s.len() as int))
    } else {
        s
    }
}

/// The text with trailing whitespace removed.
pub open spec fn spec_trim_end(s: Seq<char>) -> Seq<char>
    decreases s.len(),
{
    if s.len() > 0 && is_whitespace_char(s[s.len() - 1]) {
        spec_trim_end(s.subrange(0, s.len() - 1))
    } else {
        s
    }
}

/// The text with whitespace removed from both ends.
pub open spec fn spec_trim(s: Seq<char>) -> Seq<char> {
    spec_trim_end(spec_trim_start(s))
}

pub proof fn trim_start_is_subrange(s: Seq<char>, a: int)
    requires
        0 <= a <= s.len(),
        forall|j: int| 0 <= j < a ==> is_whitespace_char(#[trigger] s[j]),
        a < s.len() ==> !is_whitespace_char(s[a]),
    ensures
        spec_trim_start(s) == s.subrange(a, s.len() as int),
    decreases a,
{
    if a == 0 {
        assert(s.subrange(0, s.len() as int) =~= s);
    } else {
        let rest = s.subrange(1, s.len() as int);
        assert(forall|j: int| 0 <= j < a - 1 ==> is_whitespace_char(#[trigger] rest[j]));
        trim_start_is_subrange(rest, a - 1);
        assert(rest.subrange(a - 1, rest.len() as int) =~= s.subrange(a, s.len() as int));
    }
}

pub proof fn trim_end_is_subrange(s: Seq<char>, b: int)
    requires
        0 <= b <= s.len(),
        forall|j: int| b <= j < s.len() ==> is_whitespace_char(#[trigger] s[j]),
        b > 0 ==> !is_whitespace_char(s[b - 1]),
    ensures
        spec_trim_end(s) == s.subrange(0, b),
    decreases s.len() - b,
{
    if b == s.len() {
        assert(s.subrange(0, s.len() as int) =~= s);
    } else {
        let rest = s.subrange(0, s.len() - 1);
        assert(forall|j: int| b <= j < rest.len() ==> is_whitespace_char(#[trigger] rest[j]));
        trim_end_is_subrange(rest, b);
        assert(rest.subrange(0, b) =~= s.subrange(0, b));
    }
}

/// Removes leading whitespace.
pub fn trim_start_str(s: &str) -> (r: String)
    ensures
        r@ == spec_trim_start(s@),
{
    let len = s.unicode_len();
    let mut a: usize = 0;
    while a < len && whitespace_char(s.get_char(a))
        invariant
            a <= len,
            len == s@.len(),
            forall|j: int| 0 <= j < a ==> is_whitespace_char(#[trigger] s@[j]),
        decreases len - a,
    {
        a = a + 1;
    }
    proof {
        trim_start_is_subrange(s@, a as int);
    }
    String::from_str(s.substring_char(a, len))
}

/// Removes trailing whitespace.
pub fn trim_end_str(s: &str) -> (r: String)
    ensures
        r@ == spec_trim_end(s@),
{
    let len = s.unicode_len();
    let mut b: usize = len;
    while b > 0 && whitespace_char(s.get_char(b - 1))
        invariant
            b <= len,
            len == s@.len(),
            forall|j: int| b <= j < len ==> is_whitespace_char(#[trigger] s@[j]),
        decreases b,
    {
        b = b - 1;
    }
    proof {
        trim_end_is_subrange(s@, b as int);
    }
    String::from_str(s.substring_char(0, b))
}

/// Removes whitespace from both ends.
pub fn trim_str(s: &str) -> (r: String)
    ensures
        r@ == spec_trim(s@),
{
    let started = trim_start_str(s);
    trim_end_str(started.as_str())
}

/// The first position of `c` in `s` at or after `from`.
pub open spec fn spec_find_char(s: Seq<char>, c: char, from: int) -> Option<int>
    decreases s.len() - from,
{
    if from < 0 || from >= s.len() {
        None
    } else if s[from] == c {
        Some(from)
    } else {
        spec_find_char(s, c, from + 1)
    }
}

/// Finds the first occurrence of `c`.
pub fn find_char(s: &str, c: char) -> (r: Option<usize>)
    ensures
        (match r {
            Some(i) => spec_find_char(s@, c, 0) == Some(i as int) && i < s@.len() && s@[i as int]
                == c,
            None => spec_find_char(s@, c, 0) is None,
        }),
{
    let len = s.unicode_len();
    let mut i: usize = 0;
    while i < len
        invariant
            i <= len,
            len == s@.len(),
            spec_find_char(s@, c, 0) == spec_find_char(s@, c, i as int),
        decreases len - i,
    {
        if s.get_char(i) == c {
            return Some(i);
        }
        i = i + 1;
    }
    None
}

/// The decimal digit character for `d`.
pub open spec fn digit_char(d: nat) -> char {
    if d == 0 {
        '0'
    } else if d == 1 {
        '1'
    } else if d == 2 {
        '2'
    } else if d == 3 {
        '3'
    } else if d == 4 {
        '4'
    } else if d == 5 {
        '5'
    } else if d == 6 {
        '6'
    } else if d == 7 {
        '7'
    } else if d == 8 {
        '8'
    } else {
        '9'
    }
}

/// The decimal rendering of `n`, most significant digit first.
pub open spec fn spec_decimal(n: nat) -> Seq<char>
    decreases n,
{
    if n < 10 {
        seq![digit_char(n)]
    } else {
        spec_decimal(n / 10) + seq![digit_char(n % 10)]
    }
}

fn digit_str(d: u32) -> (r: &'static str)
    requires
        d <= 9,
    ensures
        r@ =~= seq![digit_char(d as nat)],
{
    let digits = "0123456789";
    proof {
        reveal_strlit("0123456789");
    }
    let r = digits.substring_char(d as usize, d as usize + 1);
    proof {
        assert(r@ =~= seq![digit_char(d as nat)]);
    }
    r
}

/// Renders `n` in decimal.
pub fn u16_to_string(n: u16) -> (r: String)
    ensures
        r@ == spec_decimal(n as nat),
{
    if n == 0 {
        let z = digit_str(0);
        return String::from_str(z);
    }
    let mut digits: Vec<u32> = Vec::new();
    let mut m: u32 = n as u32;
    while m > 0
        invariant
            m <= 0xffff,
            forall|k: int| 0 <= k < digits@.len() ==> digits@[k] <= 9,
            spec_decimal(n as nat) == (if m >= 1 {
                spec_decimal(m as nat)
            } else {
                Seq::<char>::empty()
            }) + low_first_chars(digits@),
            m == 0 ==> digits@.len() >= 1,
        decreases m,
    {
        let ghost old_digits = digits@;
        let ghost old_m = m as nat;
        let d = m % 10;
        digits.push(d);
        proof {
            assert(low_first_chars(digits@) =~= seq![digit_char(d as nat)] + low_first_chars(
                old_digits,
            ));
            if old_m >= 10 {
                assert(spec_decimal(old_m) == spec_decimal(old_m / 10) + seq![
                    digit_char(old_m % 10),
                ]);
            }
        }
        m = m / 10;
        proof {
            assert(spec_decimal(n as nat) == (if m >= 1 {
                spec_decimal(m as nat)
            } else {
                Seq::<char>::empty()
            }) + low_first_chars(digits@)) by {
                if old_m >= 10 {
                    assert((spec_decimal(m as nat) + seq![digit_char(d as nat)])
                        + low_first_chars(old_digits) =~= spec_decimal(m as nat)
                        + low_first_chars(digits@));
                } else {
                    assert(spec_decimal(old_m) =~= seq![digit_char(d as nat)]);
                    assert(seq![digit_char(d as nat)] + low_first_chars(old_digits)
                        =~= low_first_chars(digits@));
                }
            }
        }
    }
    let mut out = String::new();
    let mut j: usize = digits.len();
    while j > 0
        invariant
            j <= digits@.len(),
            forall|k: int| 0 <= k < digits@.len() ==> digits@[k] <= 9,
            out@ =~= high_first_suffix(digits@, j as int),
        decreases j,
    {
        j = j - 1;
        let piece = digit_str(digits[j]);
        out.append(piece);
        proof {
            assert(out@ =~= high_first_suffix(digits@, j as int));
        }
    }
    proof {
        assert(out@ =~= low_first_chars(digits@));
    }
    out
}

/// The characters of `digits` (stored least significant first) read
/// from the most significant end.
pub open spec fn low_first_chars(digits: Seq<u32>) -> Seq<char> {
    Seq::new(digits.len(), |i: int| digit_char(digits[digits.len() - 1 - i] as nat))
}

/// The rendering of the digits above position `j`, most significant first.
pub open spec fn high_first_suffix(digits: Seq<u32>, j: int) -> Seq<char> {
    Seq::new((digits.len() - j) as nat, |i: int| digit_char(digits[digits.len() - 1 - i] as nat))
}

} // verus!
