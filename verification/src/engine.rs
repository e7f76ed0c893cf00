use vstd::prelude::*;

verus! {

/// Whether the regex engine accepts this pattern: `regex::Regex::new`
/// succeeds exactly on the patterns for which this holds.
pub uninterp spec fn pattern_ok(pattern: Seq<char>) -> bool;

/// Whether the pattern matches anywhere in the text, as the regex engine
/// decides it.
pub uninterp spec fn has_match(pattern: Seq<char>, text: Seq<char>) -> bool;

/// The text with every non-overlapping match of the pattern replaced by the
/// replacement (capture-group references expanded), as the regex engine
/// computes it.
pub uninterp spec fn replaced(pattern: Seq<char>, replacement: Seq<char>, text: Seq<char>) -> Seq<char>;

#[verifier::external_type_specification]
#[verifier::external_body]
pub struct ExRegexError(regex::Error);

/// Raised when the target string is not a valid pattern; carries the regex
/// engine's own description of the fault.
#[derive(Debug)]
pub struct PatternError {
    pub cause: regex::Error,
}

/// Relies on `regex::Regex::new`: it succeeds exactly on valid patterns,
/// and on `regex::Regex::replace_all`: it replaces every non-overlapping
/// match and returns the haystack unchanged when there is no match.
#[verifier::external_body]
fn regex_replace_all(pattern: &str, replacement: &str, text: &str) -> (r: Result<String, regex::Error>)
    ensures
        r is Ok <==> pattern_ok(pattern@),
        r matches Ok(out) ==> out@ == replaced(pattern@, replacement@, text@),
        r matches Ok(out) ==> (!has_match(pattern@, text@) ==> out@ == text@),
{
    let re = regex::Regex::new(pattern)?;
    Ok(re.replace_all(text, replacement).into_owned())
}

/// Relies on `regex::Regex::new`: it succeeds exactly on valid patterns,
/// and on `regex::Regex::is_match`: it reports whether the pattern matches
/// anywhere in the haystack.
#[verifier::external_body]
fn regex_is_match(pattern: &str, text: &str) -> (r: Result<bool, regex::Error>)
    ensures
        r is Ok <==> pattern_ok(pattern@),
        r matches Ok(m) ==> m == has_match(pattern@, text@),
{
    let re = regex::Regex::new(pattern)?;
    Ok(re.is_match(text))
}

/// Compiles the target as a pattern and replaces every non-overlapping match
/// in the text with the replacement. Succeeds exactly on valid patterns; a
/// text without a match comes back unchanged.
pub fn substitute(target: &str, replacement: &str, text: &str) -> (r: Result<String, PatternError>)
    ensures
        r is Ok <==> pattern_ok(target@),
        r matches Ok(out) ==> out@ == replaced(target@, replacement@, text@),
        r matches Ok(out) ==> (!has_match(target@, text@) ==> out@ == text@),
{
    match regex_replace_all(target, replacement, text) {
        Ok(out) => Ok(out),
        Err(e) => Err(PatternError { cause: e }),
    }
}

/// Compiles the target as a pattern and reports whether it matches anywhere
/// in the text. Succeeds exactly on valid patterns.
pub fn pattern_matches(target: &str, text: &str) -> (r: Result<bool, PatternError>)
    ensures
        r is Ok <==> pattern_ok(target@),
        r matches Ok(m) ==> m == has_match(target@, text@),
{
    match regex_is_match(target, text) {
        Ok(m) => Ok(m),
        Err(e) => Err(PatternError { cause: e }),
    }
}

} // verus!
