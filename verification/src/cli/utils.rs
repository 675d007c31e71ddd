//! Shaping text for the terminal: padding, truncating, slugs.

use vstd::prelude::*;
use vstd::string::*;
use crate::text::{
    from_chars, is_whitespace, lowercase, spec_is_whitespace, spec_lowercase, to_chars,
};

verus! {

/// The length of a text in bytes of UTF-8, as `str::len` reports it.
pub open spec fn spec_byte_len(s: Seq<char>) -> int {
    (vstd::utf8::encode_utf8(s).len() as usize) as int
}

/// `n` spaces.
pub open spec fn spec_spaces(n: int) -> Seq<char> {
    Seq::new(
        (if n > 0 {
            n
        } else {
            0
        }) as nat,
        |i: int| ' ',
    )
}

/// The first `n` characters of a text, or all of it where it has fewer.
pub open spec fn spec_first(s: Seq<char>, n: int) -> Seq<char> {
    if n <= 0 {
        Seq::empty()
    } else if n >= s.len() {
        s
    } else {
        s.take(n)
    }
}

/// A text fitted to a column of `width`: padded with spaces where it is
/// no longer than the column in bytes, else cut, with three dots for what
/// is left out where the column has room for them.
pub open spec fn spec_pad_truncate(input: Seq<char>, width: int) -> Seq<char> {
    if spec_byte_len(input) <= width {
        input + spec_spaces(width - input.len())
    } else if width <= 3 {
        spec_first(input, width)
    } else {
        spec_first(input, width - 3) + "..."@
    }
}

/// The first `n` characters of `chars` as a string.
pub fn first(chars: &Vec<char>, n: usize) -> (s: String)
    ensures
        s@ == spec_first(chars@, n as int),
{
    if n >= chars.len() {
        let s = from_chars(chars, 0, chars.len());
        assert(s@ =~= chars@);
        s
    } else {
        let s = from_chars(chars, 0, n);
        assert(s@ =~= spec_first(chars@, n as int));
        s
    }
}

/// Fits a text to a column of `width`.
pub fn pad_truncate(input: &str, width: usize) -> (r: String)
    ensures
        r@ == spec_pad_truncate(input@, width as int),
{
    let chars = to_chars(input);
    if input.len() <= width {
        let mut r = input.to_owned();
        let mut n: usize = chars.len();
        while n < width
            invariant
                r@ == input@ + spec_spaces(n - input@.len()),
                chars.len() <= n,
                n == chars.len() || n <= width,
                chars@ == input@,
            decreases width - n,
        {
            r.push(' ');
            assert(r@ =~= input@ + spec_spaces(n + 1 - input@.len()));
            n += 1;
        }
        assert(r@ =~= input@ + spec_spaces(width - input@.len()));
        r
    } else if width <= 3 {
        first(&chars, width)
    } else {
        let mut r = first(&chars, width - 3);
        r.append("...");
        r
    }
}

/// The first position from `i` on that holds no white space, or the end of the text.
pub open spec fn spec_skip_whitespace(s: Seq<char>, i: int) -> int
    decreases s.len() - i,
{
    if i >= s.len() {
        s.len() as int
    } else if i >= 0 && spec_is_whitespace(s[i]) {
        spec_skip_whitespace(s, i + 1)
    } else {
        i
    }
}

/// The end of the text before its trailing white space, but not before `from`.
pub open spec fn spec_drop_whitespace(s: Seq<char>, from: int, n: int) -> int
    decreases n,
{
    if n <= from || n <= 0 {
        from
    } else if n <= s.len() && spec_is_whitespace(s[n - 1]) {
        spec_drop_whitespace(s, from, n - 1)
    } else {
        n
    }
}

/// A text without its leading and trailing white space.
pub open spec fn spec_trimmed(s: Seq<char>) -> Seq<char> {
    let a = spec_skip_whitespace(s, 0);
    let b = spec_drop_whitespace(s, a, s.len() as int);
    s.subrange(a, b)
}

/// The bounds of a text without its leading and trailing white space.
pub fn trim_bounds(chars: &Vec<char>) -> (r: (usize, usize))
    ensures
        r.0 == spec_skip_whitespace(chars@, 0),
        r.1 == spec_drop_whitespace(chars@, r.0 as int, chars.len() as int),
        r.0 <= r.1 <= chars.len(),
{
    let mut a: usize = 0;
    while a < chars.len() && is_whitespace(chars[a])
        invariant
            a <= chars.len(),
            spec_skip_whitespace(chars@, 0) == spec_skip_whitespace(chars@, a as int),
        decreases chars.len() - a,
    {
        a += 1;
    }
    let mut b: usize = chars.len();
    while b > a && is_whitespace(chars[b - 1])
        invariant
            a <= b <= chars.len(),
            spec_drop_whitespace(chars@, a as int, chars.len() as int) == spec_drop_whitespace(
                chars@,
                a as int,
                b as int,
            ),
        decreases b,
    {
        b -= 1;
    }
    (a, b)
}

/// The title that stands for a prompt: the prompt without the white
/// space around it where that is at most 60 bytes long, else its first 60
/// characters and three dots.
pub open spec fn spec_truncate_title(prompt: Seq<char>) -> Seq<char> {
    let trimmed = spec_trimmed(prompt);
    if spec_byte_len(trimmed) <= 60 {
        trimmed
    } else {
        spec_first(trimmed, 60) + "..."@
    }
}

/// Shortens a prompt to a title.
pub fn truncate_title(prompt: &str) -> (r: String)
    ensures
        r@ == spec_truncate_title(prompt@),
{
    let chars = to_chars(prompt);
    let (a, b) = trim_bounds(&chars);
    let trimmed = from_chars(&chars, a, b);
    if trimmed.as_str().len() <= 60 {
        trimmed
    } else {
        let t = to_chars(trimmed.as_str());
        let mut r = first(&t, 60);
        r.append("...");
        r
    }
}

/// The word for a truth value.
pub open spec fn spec_yes_no(value: bool) -> Seq<char> {
    if value {
        "yes"@
    } else {
        "no"@
    }
}

/// The word for a truth value.
pub fn yes_no(value: bool) -> (s: &'static str)
    ensures
        s@ == spec_yes_no(value),
{
    if value {
        "yes"
    } else {
        "no"
    }
}

/// The text that `Regex::replace_all` gives for a pattern, a text and a
/// replacement, or `None` where the pattern does not compile.
pub uninterp spec fn spec_regex_replace_all(
    pattern: Seq<char>,
    text: Seq<char>,
    replacement: Seq<char>,
) -> Option<Seq<char>>;

/// Replaces every match of a pattern with `Regex::new` and
/// `Regex::replace_all`. Trusted: the result is a function of the three
/// texts alone, named [`spec_regex_replace_all`]; nothing else is claimed of it.
#[verifier::external_body]
pub(crate) fn regex_replace_all(pattern: &str, text: &str, replacement: &str) -> (r: Option<String>)
    ensures
        r.deep_view() == spec_regex_replace_all(pattern@, text@, replacement@),
{
    regex::Regex::new(pattern).ok().map(|re| re.replace_all(text, replacement).into_owned())
}

/// The first position from `i` on that holds no hyphen, or the end of the text.
pub open spec fn spec_skip_hyphens(s: Seq<char>, i: int) -> int
    decreases s.len() - i,
{
    if i >= s.len() {
        s.len() as int
    } else if i >= 0 && s[i] == '-' {
        spec_skip_hyphens(s, i + 1)
    } else {
        i
    }
}

/// The end of the text before its trailing hyphens, but not before `from`.
pub open spec fn spec_drop_hyphens(s: Seq<char>, from: int, n: int) -> int
    decreases n,
{
    if n <= from || n <= 0 {
        from
    } else if n <= s.len() && s[n - 1] == '-' {
        spec_drop_hyphens(s, from, n - 1)
    } else {
        n
    }
}

/// The slug of a title whose runs of other characters were already
/// collapsed to hyphens: without the hyphens around it, cut to 16
/// characters, and without the hyphens that the cut left at its end.
pub open spec fn spec_slug_of(collapsed: Seq<char>) -> Seq<char> {
    let a = spec_skip_hyphens(collapsed, 0);
    let b = spec_drop_hyphens(collapsed, a, collapsed.len() as int);
    let end = if b - a > 16 {
        a + 16
    } else {
        b
    };
    collapsed.subrange(a, spec_drop_hyphens(collapsed, a, end))
}

/// The slug of a title whose runs of other characters were already collapsed to hyphens.
pub fn slug_of(collapsed: &str) -> (r: String)
    ensures
        r@ == spec_slug_of(collapsed@),
{
    let chars = to_chars(collapsed);
    let mut a: usize = 0;
    while a < chars.len() && chars[a] == '-'
        invariant
            a <= chars.len(),
            spec_skip_hyphens(chars@, 0) == spec_skip_hyphens(chars@, a as int),
        decreases chars.len() - a,
    {
        a += 1;
    }
    let mut b: usize = chars.len();
    while b > a && chars[b - 1] == '-'
        invariant
            a <= b <= chars.len(),
            spec_drop_hyphens(chars@, a as int, chars.len() as int) == spec_drop_hyphens(
                chars@,
                a as int,
                b as int,
            ),
        decreases b,
    {
        b -= 1;
    }
    let end: usize = if b - a > 16 {
        a + 16
    } else {
        b
    };
    let mut c: usize = end;
    while c > a && chars[c - 1] == '-'
        invariant
            a <= c <= end <= chars.len(),
            spec_drop_hyphens(chars@, a as int, end as int) == spec_drop_hyphens(
                chars@,
                a as int,
                c as int,
            ),
        decreases c,
    {
        c -= 1;
    }
    from_chars(&chars, a, c)
}

/// The pattern of what a slug replaces by a hyphen: a run of characters
/// that are neither lowercase letters nor digits.
pub open spec fn spec_slug_pattern() -> Seq<char> {
    "[^a-z0-9]+"@
}

/// The slug of a title: its lowercase form with every run of other
/// characters collapsed to a hyphen, then shaped by [`spec_slug_of`].
pub open spec fn spec_task_slug(title: Seq<char>) -> Seq<char> {
    match spec_regex_replace_all(spec_slug_pattern(), spec_lowercase(title), "-"@) {
        Some(collapsed) => spec_slug_of(collapsed),
        None => Seq::empty(),
    }
}

/// Derives the slug of a title.
pub fn task_slug(title: &str) -> (r: String)
    ensures
        r@ == spec_task_slug(title@),
{
    let lower = lowercase(title);
    match regex_replace_all("[^a-z0-9]+", lower.as_str(), "-") {
        Some(collapsed) => slug_of(collapsed.as_str()),
        None => String::new(),
    }
}

} // verus!
