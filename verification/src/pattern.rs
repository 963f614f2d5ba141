//! Compiled patterns for the actor filters.

use crate::error::{ConfigError, Failure};
use vstd::prelude::*;

verus! {

/// `regex::Regex`, a compiled pattern. Nothing of what it holds is seen here.
#[verifier::external_type_specification]
#[verifier::external_body]
pub struct ExRegex(regex::Regex);

/// `regex::Error`, what the compilation of a pattern fails with. Nothing of
/// what it holds is seen here.
#[verifier::external_type_specification]
#[verifier::external_body]
pub struct ExRegexError(regex::Error);

/// `regex::Regex::new` compiles a pattern, or returns an error for a pattern
/// that is invalid or compiles to more than the size limit. Nothing is
/// claimed here of which patterns compile.
pub assume_specification[ regex::Regex::new ](re: &str) -> (r: Result<regex::Regex, regex::Error>)
;

/// A pattern together with what it was compiled to.
#[derive(Debug)]
pub struct Matcher {
    /// The pattern as it was written.
    pub pattern: String,
    /// The compiled pattern.
    pub regex: regex::Regex,
}

/// What stops the resolution where the pattern `pattern` of `variable` does
/// not compile.
pub open spec fn pattern_failure(variable: Seq<char>, pattern: Seq<char>) -> Failure {
    Failure::MalformedValue { variable, value: pattern, target: "regex"@ }
}

/// Takes the outcome of compiling `pattern`, the value of `variable`: the
/// matcher where it compiled, the failure where it did not.
pub fn matcher_from(
    variable: &str,
    pattern: &str,
    compiled: Result<regex::Regex, regex::Error>,
) -> (r: Result<Matcher, ConfigError>)
    ensures
        r is Ok <==> compiled is Ok,
        r matches Ok(m) ==> m.pattern@ == pattern@ && m.regex == compiled->Ok_0,
        r matches Err(e) ==> e@ == pattern_failure(variable@, pattern@),
{
    match compiled {
        Ok(regex) => Ok(Matcher { pattern: pattern.to_owned(), regex }),
        Err(_) => Err(
            ConfigError::MalformedValue {
                variable: variable.to_owned(),
                value: pattern.to_owned(),
                target: "regex".to_owned(),
            },
        ),
    }
}

/// Compiles `pattern`, the value of `variable`. Whether a pattern compiles is
/// for the pattern compiler to say; whatever it says, a matcher holds the
/// pattern it was asked for, and a failure names the variable and the pattern.
pub fn compile(variable: &str, pattern: &str) -> (r: Result<Matcher, ConfigError>)
    ensures
        r matches Ok(m) ==> m.pattern@ == pattern@,
        r matches Err(e) ==> e@ == pattern_failure(variable@, pattern@),
{
    matcher_from(variable, pattern, regex::Regex::new(pattern))
}

} // verus!
