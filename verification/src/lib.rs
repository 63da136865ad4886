//! Predicate-evaluation core of a filesystem search tool.
//!
//! A directory walk hands the library one entry at a time; an expression
//! tree of matchers decides, for each entry, whether the expression is
//! satisfied, running the side effects of the matchers it reaches under
//! short-circuit evaluation.

pub mod entry;
pub mod matchers;
pub mod name_matcher;
pub mod printer;
pub mod sink;
pub mod wildcard;
