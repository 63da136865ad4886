//! The shell-wildcard pattern engine, reached through trusted declarations.
//!
//! Compiling a pattern and matching a name against it are both
//! deterministic in their text arguments alone, so the two verdicts are
//! given names here (`wildcard_ok`, `wildcard_matches`) and every contract
//! of the library speaks of those names.

use vstd::prelude::*;

verus! {

/// Whether a pattern text is well-formed shell-wildcard syntax: the
/// verdict of compiling it. Stands for the success of `glob::Pattern::new`
/// on that text, which depends on the text alone.
pub uninterp spec fn wildcard_ok(pattern: Seq<char>) -> bool;

/// Whether a name satisfies a well-formed wildcard pattern under the
/// default match options (case-sensitive, no literal-separator or
/// leading-dot requirement). Stands for the verdict of
/// `glob::Pattern::matches`, which depends on the pattern text and the
/// name alone.
pub uninterp spec fn wildcard_matches(pattern: Seq<char>, name: Seq<char>) -> bool;

/// A configuration error: the pattern text is not valid shell-wildcard
/// syntax. Reported at construction time, before any traversal begins.
#[derive(Debug)]
pub struct PatternSyntaxError {
    /// The approximate character position of the fault in the pattern.
    pub pos: usize,
    /// The engine's description of the fault.
    pub msg: String,
}

/// Relies on `glob::Pattern::new`: it compiles exactly the well-formed
/// shell-wildcard patterns, deterministically in the pattern text, and on
/// any other text reports the position and message of the first fault.
#[verifier::external_body]
pub(crate) fn compile_check(pattern: &str) -> (r: Result<(), PatternSyntaxError>)
    ensures
        r is Ok <==> wildcard_ok(pattern@),
{
    match glob::Pattern::new(pattern) {
        Ok(_) => Ok(()),
        Err(e) => Err(PatternSyntaxError { pos: e.pos, msg: e.msg.to_string() }),
    }
}

/// Relies on `glob::Pattern::new` and `glob::Pattern::matches`: compiling
/// is deterministic in the pattern text, and the match verdict under the
/// default options is a function of the pattern text and the name alone.
/// The error arm is unreachable for a pattern that compiles.
#[verifier::external_body]
pub(crate) fn wildcard_match(pattern: &str, name: &str) -> (r: bool)
    requires
        wildcard_ok(pattern@),
    ensures
        r == wildcard_matches(pattern@, name@),
{
    match glob::Pattern::new(pattern) {
        Ok(p) => p.matches(name),
        Err(_) => false,
    }
}

} // verus!
