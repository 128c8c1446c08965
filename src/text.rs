//! The few string operations of std that the library relies on.
use vstd::prelude::*;

verus! {

/// The text that `str::trim` leaves of `s`.
pub uninterp spec fn trimmed(s: Seq<char>) -> Seq<char>;

/// The text that `str::to_lowercase` makes of `s`.
pub uninterp spec fn lowercased(s: Seq<char>) -> Seq<char>;

/// Whether `needle` occurs in `hay` as a contiguous run of characters.
pub open spec fn contains_run(hay: Seq<char>, needle: Seq<char>) -> bool {
    exists|i: int|
        0 <= i && i + needle.len() <= hay.len() && #[trigger] hay.subrange(i, i + needle.len())
            == needle
}

/// Relies on `str::trim`: the text without leading and trailing white space,
/// a function of the characters alone.
#[verifier::external_body]
pub(crate) fn trim_text<'a>(s: &'a str) -> (r: &'a str)
    ensures
        r@ == trimmed(s@),
{
    s.trim()
}

/// Relies on `str::to_lowercase`: the lower-case form of the text, a function
/// of the characters alone.
#[verifier::external_body]
pub(crate) fn lowercase_text(s: &str) -> (r: String)
    ensures
        r@ == lowercased(s@),
{
    s.to_lowercase()
}

/// Relies on `str::contains` with a `&str` pattern: true exactly when the
/// pattern occurs in the text.
#[verifier::external_body]
pub(crate) fn text_contains(hay: &str, needle: &str) -> (r: bool)
    ensures
        r == contains_run(hay@, needle@),
{
    hay.contains(needle)
}

/// The digit character for `d` in `0..=9`.
pub open spec fn digit_char(d: int) -> char {
    (d + 48) as char
}

/// Whether `c` is an ASCII digit.
pub open spec fn is_digit(c: char) -> bool {
    '0' <= c <= '9'
}

/// The decimal form of `n`, without leading zeros.
pub open spec fn decimal(n: nat) -> Seq<char>
    decreases n,
{
    if n < 10 {
        seq![digit_char(n as int)]
    } else {
        decimal(n / 10).push(digit_char((n % 10) as int))
    }
}

/// The number that a run of digits spells.
pub open spec fn digits_value(s: Seq<char>) -> int
    decreases s.len(),
{
    if s.len() == 0 {
        0
    } else {
        digits_value(s.drop_last()) * 10 + (s.last() as int - 48)
    }
}

/// What `u32::from_str` reads from `s`: an optional `+` and then one or more
/// ASCII digits whose value fits in a `u32`; anything else is an error.
pub open spec fn parsed_u32(s: Seq<char>) -> Option<u32> {
    let d = if s.len() > 0 && s[0] == '+' {
        s.drop_first()
    } else {
        s
    };
    if d.len() > 0 && (forall|i: int| 0 <= i < d.len() ==> is_digit(#[trigger] d[i])) && digits_value(d)
        <= u32::MAX {
        Some(digits_value(d) as u32)
    } else {
        None
    }
}

/// Relies on `u32`'s `Display` (through `to_string`): the decimal digits of
/// the number, without sign or leading zeros.
#[verifier::external_body]
pub(crate) fn decimal_text(n: u32) -> (r: String)
    ensures
        r@ == decimal(n as nat),
{
    n.to_string()
}

/// Relies on `u32::from_str` (through `str::parse`): `Ok` exactly for an
/// optional `+` followed by decimal digits whose value fits in a `u32`.
#[verifier::external_body]
pub(crate) fn parse_u32(s: &str) -> (r: Option<u32>)
    ensures
        r == parsed_u32(s@),
{
    s.parse::<u32>().ok()
}

} // verus!
