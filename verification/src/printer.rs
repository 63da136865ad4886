//! An action that prints the entry's full path.

use vstd::prelude::*;

use crate::entry::Entry;
use crate::matchers::Matcher;
use crate::sink::{newline, MatcherIO};

verus! {

/// This matcher prints the entry's full path, one line per entry, through
/// the evaluation context's sink. It is an action, not a filter: it is
/// always satisfied, and it declares its side effect.
pub struct Printer {
}

impl Printer {
    /// Builds a printer. It needs no configuration beyond the sink
    /// reachable through the evaluation context.
    pub fn new() -> (r: Printer)
        ensures
            r == (Printer { }),
    {
        Printer { }
    }

    /// Lifts a fresh printer into an expression-tree node.
    pub fn new_box() -> (r: Box<Matcher>)
        ensures
            *r == (Matcher::Print(Printer { })),
    {
        Box::new(Matcher::Print(Printer::new()))
    }

    /// Writes the entry's full path followed by a line terminator through
    /// the context, then reports satisfaction: an action is always
    /// satisfied, whatever the entry holds. A failed write is recorded in
    /// the context as fatal to the run.
    pub fn matches(&self, entry: &Entry, io: &mut MatcherIO) -> (r: bool)
        ensures
            r == true,
            final(io).spec_is_capture() == old(io).spec_is_capture(),
            old(io).failed() ==> *final(io) == *old(io),
            !old(io).failed() && !final(io).failed() ==> final(io).out() == old(io).out()
                + entry.path@ + newline(),
            !old(io).failed() && final(io).failed() ==> final(io).out() == old(io).out(),
            old(io).spec_is_capture() && !old(io).failed() ==> !final(io).failed(),
    {
        io.print_line(entry.path.as_str());
        true
    }

    /// Declares that printing is an externally observable effect.
    pub fn has_side_effects(&self) -> (r: bool)
        ensures
            r == true,
    {
        true
    }
}

} // verus!
