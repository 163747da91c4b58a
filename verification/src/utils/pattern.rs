//! Regular expressions, as the `regex` crate matches them.

use vstd::prelude::*;

verus! {

/// Why a pattern was not accepted.
#[verifier::external_type_specification]
#[verifier::external_body]
pub struct ExRegexError(regex::Error);

/// What the first group of `pattern` holds in its leftmost match in `text`:
/// nothing if the pattern is not accepted, does not match, or matches
/// without that group.
pub uninterp spec fn first_group_of(pattern: Seq<char>, text: Seq<char>) -> Option<Seq<char>>;

/// `text` with every match of `pattern` replaced by the expansion of
/// `replacement`, or nothing if the pattern is not accepted.
pub uninterp spec fn replaced_by_pattern(
    pattern: Seq<char>,
    text: Seq<char>,
    replacement: Seq<char>,
) -> Option<Seq<char>>;

/// `Regex::new`, `Regex::captures` and `Captures::get(1)`: the result is a
/// function of pattern and text alone, named [`first_group_of`].
#[verifier::external_body]
pub(crate) fn first_group(pattern: &str, text: &str) -> (r: Option<String>)
    ensures
        r is Some <==> first_group_of(pattern@, text@) is Some,
        r is Some ==> Some(r->0@) == first_group_of(pattern@, text@),
{
    let re = regex::Regex::new(pattern).ok()?;
    let found = re.captures(text)?;
    found.get(1).map(|m| String::from(m.as_str()))
}

/// `Regex::new` and `Regex::replace_all`: an error exactly when the pattern
/// is not accepted; else the result is a function of pattern, text and
/// replacement alone, named [`replaced_by_pattern`].
#[verifier::external_body]
pub(crate) fn replace_pattern(pattern: &str, text: &str, replacement: &str) -> (r: Result<
    String,
    regex::Error,
>)
    ensures
        r is Ok <==> replaced_by_pattern(pattern@, text@, replacement@) is Some,
        r is Ok ==> Some(r->Ok_0@) == replaced_by_pattern(pattern@, text@, replacement@),
{
    let re = regex::Regex::new(pattern)?;
    Ok(re.replace_all(text, replacement).into_owned())
}

} // verus!
