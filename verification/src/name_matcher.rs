//! A predicate on the entry's base name.

use vstd::prelude::*;
use vstd::string::StringExecFns;

use crate::entry::Entry;
use crate::matchers::Matcher;
use crate::sink::MatcherIO;
use crate::wildcard::{compile_check, wildcard_match, wildcard_matches, wildcard_ok};
use crate::wildcard::PatternSyntaxError;

verus! {

/// This matcher makes a case-sensitive comparison of the entry's base
/// name against a shell-wildcard pattern. It is pure: evaluation never
/// touches the evaluation context.
pub struct NameMatcher {
    pattern: String,
}

impl NameMatcher {
    /// The pattern text this matcher was built from.
    pub closed spec fn pattern_spec(self) -> Seq<char> {
        self.pattern@
    }

    #[verifier::type_invariant]
    spec fn wf(self) -> bool {
        wildcard_ok(self.pattern@)
    }

    /// Builds a name matcher from a pattern string, rejecting at
    /// construction time any text that is not valid shell-wildcard
    /// syntax. Evaluation is then infallible.
    pub fn new(pattern_string: &str) -> (r: Result<NameMatcher, PatternSyntaxError>)
        ensures
            r is Ok <==> wildcard_ok(pattern_string@),
            r matches Ok(m) ==> m.pattern_spec() == pattern_string@,
    {
        match compile_check(pattern_string) {
            Ok(()) => Ok(NameMatcher { pattern: String::from_str(pattern_string) }),
            Err(e) => Err(e),
        }
    }

    /// Builds a name matcher and lifts it into an expression-tree node.
    pub fn new_box(pattern_string: &str) -> (r: Result<Box<Matcher>, PatternSyntaxError>)
        ensures
            r is Ok <==> wildcard_ok(pattern_string@),
            r matches Ok(b) ==> *b matches Matcher::Name(m)
                && m.pattern_spec() == pattern_string@,
    {
        match NameMatcher::new(pattern_string) {
            Ok(m) => Ok(Box::new(Matcher::Name(m))),
            Err(e) => Err(e),
        }
    }

    /// Reports whether the entry's base name satisfies the pattern,
    /// case-sensitively. Pure: the verdict is a function of the pattern
    /// and the name alone, and the evaluation context is left untouched.
    pub fn matches(&self, entry: &Entry, io: &mut MatcherIO) -> (r: bool)
        ensures
            r == wildcard_matches(self.pattern_spec(), entry.name@),
            *final(io) == *old(io),
    {
        proof {
            use_type_invariant(self);
        }
        wildcard_match(self.pattern.as_str(), entry.name.as_str())
    }

    /// Declares that name matching never produces an observable effect.
    pub fn has_side_effects(&self) -> (r: bool)
        ensures
            r == false,
    {
        false
    }
}

} // verus!
