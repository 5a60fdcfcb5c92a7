use vstd::prelude::*;

verus! {

/// Whether the pattern text is a valid regular expression.
pub uninterp spec fn regex_compiles(pattern: Seq<char>) -> bool;

/// The text of the first capture group of the first match of the
/// pattern in the input, if the pattern matches and has a first group.
pub uninterp spec fn first_capture(pattern: Seq<char>, input: Seq<char>) -> Option<Seq<char>>;

/// Relies on regex::Regex::new: whether a pattern compiles depends on
/// the pattern text alone.
#[verifier::external_body]
pub(crate) fn pattern_compiles(pattern: &str) -> (r: bool)
    ensures
        r == regex_compiles(pattern@),
{
    regex::Regex::new(pattern).is_ok()
}

/// Relies on regex::Regex::new, regex::Regex::captures and
/// regex::Captures::get: the first capture group of the first match is
/// a function of the pattern and the input alone.
#[verifier::external_body]
pub(crate) fn capture_one(pattern: &str, input: &str) -> (r: Option<String>)
    requires
        regex_compiles(pattern@),
    ensures
        (match r {
            Some(s) => first_capture(pattern@, input@) == Some(s@),
            None => first_capture(pattern@, input@) is None,
        }),
{
    let re = regex::Regex::new(pattern).unwrap();
    match re.captures(input) {
        Some(caps) => match caps.get(1) {
            Some(m) => Some(m.as_str().to_string()),
            None => None,
        },
        None => None,
    }
}

} // verus!
