//! Naming the device that a routing key comes from.
use vstd::prelude::*;

verus! {

/// A routing key is `<device>.<metric path>`: the device is what comes
/// before the first `.`.
pub const DEVICE_PATTERN: &'static str = "(.*?)\\..*";

/// The text of the first capture group of the leftmost match of a regular
/// expression in a text; `None` where the expression is invalid or does not match.
pub uninterp spec fn regex_group_one(pattern: Seq<char>, text: Seq<char>) -> Option<Seq<char>>;

/// Relies on regex::Regex::new and Regex::captures: compiles `pattern` and
/// returns the first capture group of its leftmost match in `text`.
#[verifier::external_body]
fn capture_group_one(pattern: &str, text: &str) -> (r: Option<String>)
    ensures
        match r {
            Some(s) => regex_group_one(pattern@, text@) == Some(s@),
            None => regex_group_one(pattern@, text@) is None,
        },
{
    let re = regex::Regex::new(pattern).ok()?;
    match re.captures(text)?.get(1) {
        Some(m) => Some(m.as_str().to_string()),
        None => None,
    }
}

/// The device that a routing key names.
pub open spec fn device_of(key: Seq<char>) -> Option<Seq<char>> {
    regex_group_one(DEVICE_PATTERN@, key)
}

/// The device that a routing key names, or `None` when the key has no `.`.
pub fn get_device_name(key: &str) -> (r: Option<String>)
    ensures
        match r {
            Some(s) => device_of(key@) == Some(s@),
            None => device_of(key@) is None,
        },
{
    capture_group_one(DEVICE_PATTERN, key)
}

} // verus!
