//! Identifiers: opaque 128-bit values and their textual form.

use vstd::prelude::*;
use vstd::arithmetic::power::pow;

verus! {

/// The lowercase hexadecimal digit that stands for a value from 0 to 15.
pub open spec fn spec_hex_digit(v: int) -> char {
    if v < 10 {
        (0x30 + v) as char
    } else {
        (0x57 + v) as char
    }
}

/// The `k`-th group of four bits of `id`, counted from the most significant one.
pub open spec fn spec_nibble(id: u128, k: int) -> int {
    (id as int / pow(16, (31 - k) as nat)) % 16
}

/// How many hyphens stand before position `p` of the hyphenated form.
pub open spec fn spec_hyphens_before(p: int) -> int {
    if p < 8 {
        0
    } else if p < 13 {
        1
    } else if p < 18 {
        2
    } else if p < 23 {
        3
    } else {
        4
    }
}

/// The hyphenated lowercase form of an identifier: 32 hexadecimal digits,
/// most significant first, in groups of 8, 4, 4, 4 and 12.
pub open spec fn spec_uuid_text(id: u128) -> Seq<char> {
    Seq::new(
        36,
        |p: int|
            if p == 8 || p == 13 || p == 18 || p == 23 {
                '-'
            } else {
                spec_hex_digit(spec_nibble(id, p - spec_hyphens_before(p)))
            },
    )
}

/// Formats an identifier with `Uuid`'s `Display`, which writes the hyphenated
/// lowercase form. Trusted: the result is claimed to be exactly the 36
/// characters of [`spec_uuid_text`].
#[verifier::external_body]
pub(crate) fn uuid_text(id: u128) -> (s: String)
    ensures
        s@ == spec_uuid_text(id),
{
    uuid::Uuid::from_u128(id).to_string()
}

/// Draws a random version-4 identifier with `Uuid::new_v4`. Trusted, and
/// nothing is claimed of the value: two draws may even be equal.
#[verifier::external_body]
pub(crate) fn random_id() -> (id: u128)
{
    uuid::Uuid::new_v4().as_u128()
}

/// The first eight characters of the hyphenated form: the identifier's short name.
pub open spec fn spec_short_id(id: u128) -> Seq<char> {
    spec_uuid_text(id).take(8)
}

/// The short name of an identifier, as it appears in branch names.
pub fn short_id(id: u128) -> (s: String)
    ensures
        s@ == spec_short_id(id),
        s@.len() == 8,
{
    let text = uuid_text(id);
    let head = text.as_str().substring_char(0, 8);
    let mut s = String::new();
    s.append(head);
    assert(s@ =~= spec_short_id(id));
    s
}

/// The identifier that `Uuid::parse_str` reads from a text, or `None`
/// where it refuses the text.
pub uninterp spec fn spec_uuid_of_text(text: Seq<char>) -> Option<u128>;

/// Parses an identifier with `Uuid::parse_str`. Trusted: the result is a
/// function of the text alone, named [`spec_uuid_of_text`]; nothing else
/// is claimed of it.
#[verifier::external_body]
pub(crate) fn uuid_of_text(text: &str) -> (r: Option<u128>)
    ensures
        r == spec_uuid_of_text(text@),
{
    uuid::Uuid::parse_str(text).ok().map(|id| id.as_u128())
}

/// Reads an identifier from its textual form.
pub fn parse_uuid(input: &str) -> (r: Option<u128>)
    ensures
        r == spec_uuid_of_text(input@),
{
    uuid_of_text(input)
}

} // verus!
