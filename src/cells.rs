use vstd::prelude::*;
use vstd::string::*;
use crate::price::{Price, PriceView};

verus! {

/// Whether a character has the Unicode `White_Space` property.
pub open spec fn is_white_space(c: char) -> bool {
    ('\u{9}' <= c && c <= '\u{d}') || c == ' ' || c == '\u{85}' || c == '\u{a0}' || c == '\u{1680}'
        || ('\u{2000}' <= c && c <= '\u{200a}') || c == '\u{2028}' || c == '\u{2029}'
        || c == '\u{202f}' || c == '\u{205f}' || c == '\u{3000}'
}

/// A text without its leading white space.
pub open spec fn trim_start(s: Seq<char>) -> Seq<char>
    decreases s.len(),
{
    if s.len() > 0 && is_white_space(s[0]) {
        trim_start(s.drop_first())
    } else {
        s
    }
}

/// A text without its trailing white space.
pub open spec fn trim_end(s: Seq<char>) -> Seq<char>
    decreases s.len(),
{
    if s.len() > 0 && is_white_space(s.last()) {
        trim_end(s.drop_last())
    } else {
        s
    }
}

/// A text without its leading and trailing white space.
pub open spec fn trimmed(s: Seq<char>) -> Seq<char> {
    trim_end(trim_start(s))
}

/// Relies on `str::trim`, which removes the leading and trailing characters
/// that have the Unicode `White_Space` property.
#[verifier::external_body]
fn trim(s: &str) -> (r: &str)
    ensures
        r@ == trimmed(s@),
{
    s.trim()
}

/// The city key of a trimmed city label: the label without its final
/// character (the marker glyph the page appends); an empty label stays empty.
pub open spec fn key_of(label: Seq<char>) -> Seq<char> {
    if label.len() == 0 {
        label
    } else {
        label.drop_last()
    }
}

/// Drops the final character of an already trimmed city label.
pub fn strip_marker(label: &str) -> (r: String)
    ensures
        r@ == key_of(label@),
{
    let n = label.unicode_len();
    if n == 0 {
        String::new()
    } else {
        label.substring_char(0, n - 1).to_owned()
    }
}

/// The city key of a city cell's text: trimmed, then without its marker.
pub fn city_key(cell: &str) -> (r: String)
    ensures
        r@ == key_of(trimmed(cell@)),
{
    strip_marker(trim(cell))
}

/// A price cell that does not hold the two text segments of a quote.
#[derive(Debug, Clone, Copy, PartialEq, Eq)]
pub struct MalformedCellError;

/// The quote that a price cell's text segments give: the first segment
/// trimmed is the value, the second trimmed is the change; fewer than two
/// segments give none.
pub open spec fn cell_price(segments: Seq<Seq<char>>) -> Option<PriceView> {
    if segments.len() < 2 {
        None
    } else {
        Some(PriceView { value: trimmed(segments[0]), change: trimmed(segments[1]) })
    }
}

/// Turns the ordered text segments of a price cell into a quote.
pub fn parse_cell(segments: &Vec<String>) -> (r: Result<Price, MalformedCellError>)
    ensures
        match r {
            Ok(p) => cell_price(segments.deep_view()) == Some(p@),
            Err(_) => cell_price(segments.deep_view()) is None,
        },
{
    if segments.len() < 2 {
        return Err(MalformedCellError);
    }
    let value = trim(segments[0].as_str()).to_owned();
    let change = trim(segments[1].as_str()).to_owned();
    Ok(Price::new(value, change))
}

} // verus!
