//! The device identifier inside the text that a platform prints for a
//! peripheral handle.

use vstd::prelude::*;

verus! {

/// Pattern that finds the identifier in text of the shape `PeripheralId(<id>)`.
pub const PERIPHERAL_ID_PATTERN: &'static str = "PeripheralId\\((?P<id>.+?)\\)";

/// Name of the group of [`PERIPHERAL_ID_PATTERN`] that holds the identifier.
pub const PERIPHERAL_ID_GROUP: &'static str = "id";

/// What the named group `group` of the regular expression `pattern` holds
/// for the leftmost match in `text`; `None` where the pattern does not
/// compile, nothing matches, or the group took no part in the match.
pub uninterp spec fn regex_capture(pattern: Seq<char>, group: Seq<char>, text: Seq<char>) -> Option<
    Seq<char>,
>;

/// The text that an optional string holds.
pub open spec fn option_text(s: Option<String>) -> Option<Seq<char>> {
    match s {
        Some(s) => Some(s@),
        None => None,
    }
}

/// Compiles `pattern` with `regex::Regex::new`, searches `text` with
/// `Regex::captures` and reads the group with `Captures::name`.
///
/// Trusted: the outcome depends on the three arguments alone.
#[verifier::external_body]
pub(crate) fn capture_group(pattern: &str, group: &str, text: &str) -> (r: Option<String>)
    ensures
        option_text(r) == regex_capture(pattern@, group@, text@),
{
    match regex::Regex::new(pattern) {
        Ok(re) => re.captures(text).and_then(|caps| caps.name(group)).map(|m| m.as_str().to_string()),
        Err(_) => None,
    }
}

/// The identifier that a capture stands for: the captured text, or the empty
/// text where nothing was captured.
pub open spec fn id_of_capture(capture: Option<Seq<char>>) -> Seq<char> {
    match capture {
        Some(id) => id,
        None => Seq::empty(),
    }
}

/// The normalized identifier of a device whose platform handle prints as `text`.
pub open spec fn peripheral_id_of(text: Seq<char>) -> Seq<char> {
    id_of_capture(regex_capture(PERIPHERAL_ID_PATTERN@, PERIPHERAL_ID_GROUP@, text))
}

/// Turns the outcome of a capture into an identifier: the captured text, or
/// the empty string where there is none.
pub fn id_from_capture(capture: Option<String>) -> (id: String)
    ensures
        id@ == id_of_capture(option_text(capture)),
{
    match capture {
        Some(s) => s,
        None => String::new(),
    }
}

/// Extracts the identifier from the printed form of a peripheral handle.
/// Text without a match gives the empty string.
pub fn capture_id(text: &str) -> (id: String)
    ensures
        id@ == peripheral_id_of(text@),
{
    id_from_capture(capture_group(PERIPHERAL_ID_PATTERN, PERIPHERAL_ID_GROUP, text))
}

} // verus!
