//! Lists as JSON text: the form in which a row stores a list of strings or
//! of identifiers.

use vstd::prelude::*;

verus! {

/// The JSON text that `serde_json` writes for a list of strings, or
/// `None` where it reports an error.
pub uninterp spec fn spec_json_of_strings(list: Seq<Seq<char>>) -> Option<Seq<char>>;

/// The list of strings that `serde_json` reads from a JSON text, or
/// `None` where the text is no JSON array of strings.
pub uninterp spec fn spec_strings_of_json(text: Seq<char>) -> Option<Seq<Seq<char>>>;

/// The JSON text that `serde_json` writes for a list of identifiers, or
/// `None` where it reports an error.
pub uninterp spec fn spec_json_of_ids(list: Seq<u128>) -> Option<Seq<char>>;

/// The list of identifiers that `serde_json` reads from a JSON text, or
/// `None` where the text is no JSON array of identifiers.
pub uninterp spec fn spec_ids_of_json(text: Seq<char>) -> Option<Seq<u128>>;

/// Serialises a list of strings with `serde_json::to_string`. Trusted:
/// the result is a function of the list alone, named
/// [`spec_json_of_strings`]; nothing else is claimed of it.
#[verifier::external_body]
pub(crate) fn json_of_strings(list: &Vec<String>) -> (r: Option<String>)
    ensures
        r.deep_view() == spec_json_of_strings(list.deep_view()),
{
    serde_json::to_string(list).ok()
}

/// Parses a list of strings with `serde_json::from_str`. Trusted: the
/// result is a function of the text alone, named [`spec_strings_of_json`];
/// nothing else is claimed of it.
#[verifier::external_body]
pub(crate) fn strings_of_json(text: &str) -> (r: Option<Vec<String>>)
    ensures
        r.deep_view() == spec_strings_of_json(text@),
{
    serde_json::from_str::<Vec<String>>(text).ok()
}

/// Serialises a list of identifiers with `serde_json::to_string`, each
/// as a `Uuid`. Trusted: the result is a function of the list alone, named
/// [`spec_json_of_ids`]; nothing else is claimed of it.
#[verifier::external_body]
pub(crate) fn json_of_ids(list: &Vec<u128>) -> (r: Option<String>)
    ensures
        r.deep_view() == spec_json_of_ids(list@),
{
    let ids: Vec<uuid::Uuid> = list.iter().map(|id| uuid::Uuid::from_u128(*id)).collect();
    serde_json::to_string(&ids).ok()
}

/// Parses a list of identifiers with `serde_json::from_str`, each as a
/// `Uuid`. Trusted: the result is a function of the text alone, named
/// [`spec_ids_of_json`]; nothing else is claimed of it.
#[verifier::external_body]
pub(crate) fn ids_of_json(text: &str) -> (r: Option<Vec<u128>>)
    ensures
        r.deep_view() == spec_ids_of_json(text@),
{
    let ids = serde_json::from_str::<Vec<uuid::Uuid>>(text).ok();
    ids.map(|v| v.into_iter().map(|id| id.as_u128()).collect())
}

/// What a row stores for an optional list of strings: nothing for no
/// list, else the list's JSON text, or the empty text where it has none.
pub open spec fn spec_encode_strings(list: Option<Seq<Seq<char>>>) -> Option<Seq<char>> {
    match list {
        None => None,
        Some(l) => Some(
            match spec_json_of_strings(l) {
                Some(text) => text,
                None => Seq::empty(),
            },
        ),
    }
}

/// Encodes an optional list of strings for a row.
pub fn encode_strings(list: &Option<Vec<String>>) -> (r: Option<String>)
    ensures
        r.deep_view() == spec_encode_strings(list.deep_view()),
{
    match list {
        None => None,
        Some(l) => {
            match json_of_strings(l) {
                Some(text) => Some(text),
                None => Some(String::new()),
            }
        },
    }
}

/// The list that a row's optional JSON text stands for: the empty list
/// where there is no text or the text is no list of strings.
pub open spec fn spec_decode_strings(text: Option<Seq<char>>) -> Seq<Seq<char>> {
    match text {
        None => Seq::empty(),
        Some(t) => match spec_strings_of_json(t) {
            Some(l) => l,
            None => Seq::empty(),
        },
    }
}

/// Decodes a row's optional JSON text to a list of strings.
pub fn decode_strings(text: &Option<String>) -> (r: Vec<String>)
    ensures
        r.deep_view() == spec_decode_strings(text.deep_view()),
{
    match text {
        None => {
            let r: Vec<String> = Vec::new();
            assert(r.deep_view() =~= Seq::empty());
            r
        },
        Some(t) => {
            match strings_of_json(t.as_str()) {
                Some(l) => l,
                None => {
                    let r: Vec<String> = Vec::new();
                    assert(r.deep_view() =~= Seq::empty());
                    r
                },
            }
        },
    }
}

/// What a row stores for an optional list of identifiers.
pub open spec fn spec_encode_ids(list: Option<Seq<u128>>) -> Option<Seq<char>> {
    match list {
        None => None,
        Some(l) => Some(
            match spec_json_of_ids(l) {
                Some(text) => text,
                None => Seq::empty(),
            },
        ),
    }
}

/// Encodes an optional list of identifiers for a row.
pub fn encode_ids(list: &Option<Vec<u128>>) -> (r: Option<String>)
    ensures
        r.deep_view() == spec_encode_ids(
            match list {
                Some(l) => Some(l@),
                None => None,
            },
        ),
{
    match list {
        None => None,
        Some(l) => {
            match json_of_ids(l) {
                Some(text) => Some(text),
                None => Some(String::new()),
            }
        },
    }
}

/// The list that a row's optional JSON text stands for: the empty list
/// where there is no text or the text is no list of identifiers.
pub open spec fn spec_decode_ids(text: Option<Seq<char>>) -> Seq<u128> {
    match text {
        None => Seq::empty(),
        Some(t) => match spec_ids_of_json(t) {
            Some(l) => l,
            None => Seq::empty(),
        },
    }
}

/// Decodes a row's optional JSON text to a list of identifiers.
pub fn decode_ids(text: &Option<String>) -> (r: Vec<u128>)
    ensures
        r@ == spec_decode_ids(text.deep_view()),
{
    match text {
        None => Vec::new(),
        Some(t) => {
            match ids_of_json(t.as_str()) {
                Some(l) => l,
                None => Vec::new(),
            }
        },
    }
}

/// The JSON text that `serde_json` writes for a string, or `None` where
/// it reports an error.
pub uninterp spec fn spec_json_of_string(text: Seq<char>) -> Option<Seq<char>>;

/// Serialises a string with `serde_json::to_string`, which quotes and
/// escapes it. Trusted: the result is a function of the string alone,
/// named [`spec_json_of_string`]; nothing else is claimed of it.
#[verifier::external_body]
pub(crate) fn json_of_string(text: &str) -> (r: Option<String>)
    ensures
        r.deep_view() == spec_json_of_string(text@),
{
    serde_json::to_string(text).ok()
}

/// A string as it stands in a JSON text: quoted and escaped; an empty
/// string literal where it cannot be written.
pub open spec fn spec_quoted(text: Seq<char>) -> Seq<char> {
    match spec_json_of_string(text) {
        Some(t) => t,
        None => "\"\""@,
    }
}

/// Quotes and escapes a string for a JSON text.
pub fn quoted(text: &str) -> (r: String)
    ensures
        r@ == spec_quoted(text@),
{
    match json_of_string(text) {
        Some(t) => t,
        None => "\"\"".to_owned(),
    }
}

/// A list of strings as it stands in a JSON text; an empty array where
/// it cannot be written.
pub open spec fn spec_quoted_list(list: Seq<Seq<char>>) -> Seq<char> {
    match spec_json_of_strings(list) {
        Some(t) => t,
        None => "[]"@,
    }
}

/// Writes a list of strings for a JSON text.
pub fn quoted_list(list: &Vec<String>) -> (r: String)
    ensures
        r@ == spec_quoted_list(list.deep_view()),
{
    match json_of_strings(list) {
        Some(t) => t,
        None => "[]".to_owned(),
    }
}

} // verus!
