//! The matcher contract and the expression tree.
//!
//! Every predicate and every action is a `Matcher` node; combinator nodes
//! own child matchers and compose them under short-circuit evaluation.
//! The tree is built once, before traversal begins, and then evaluated
//! read-only, once per visited entry.

use vstd::prelude::*;

use crate::entry::Entry;
use crate::name_matcher::NameMatcher;
use crate::printer::Printer;
use crate::sink::{newline, MatcherIO};
use crate::wildcard::wildcard_matches;

verus! {

/// One node of the expression tree. Leaves decide satisfaction (and may
/// carry a side effect); combinators compose children under short-circuit
/// evaluation, left to right.
pub enum Matcher {
    /// A name predicate: satisfied when the entry's base name matches the
    /// wildcard pattern. Pure.
    Name(NameMatcher),
    /// A printing action: always satisfied; writes the entry's full path.
    Print(Printer),
    /// Conjunction: the right child runs only when the left is satisfied.
    And(Box<Matcher>, Box<Matcher>),
    /// Disjunction: the right child runs only when the left is not
    /// satisfied.
    Or(Box<Matcher>, Box<Matcher>),
    /// Negation: inverts the child's verdict; the child's side effects
    /// still occur.
    Not(Box<Matcher>),
    /// Explicit grouping of a subexpression: semantically transparent.
    Group(Box<Matcher>),
}

impl Matcher {
    /// Whether this matcher is satisfied by `entry`: the boolean verdict
    /// of one evaluation, a function of the tree and the entry alone.
    pub open spec fn spec_matches(self, entry: Entry) -> bool
        decreases self,
    {
        match self {
            Matcher::Name(m) => wildcard_matches(m.pattern_spec(), entry.name@),
            Matcher::Print(_) => true,
            Matcher::And(l, r) => (*l).spec_matches(entry) && (*r).spec_matches(entry),
            Matcher::Or(l, r) => (*l).spec_matches(entry) || (*r).spec_matches(entry),
            Matcher::Not(m) => !(*m).spec_matches(entry),
            Matcher::Group(m) => (*m).spec_matches(entry),
        }
    }

    /// Whether one evaluation of this tree can produce an externally
    /// observable effect beyond its verdict.
    pub open spec fn spec_has_side_effects(self) -> bool
        decreases self,
    {
        match self {
            Matcher::Name(_) => false,
            Matcher::Print(_) => true,
            Matcher::And(l, r) => (*l).spec_has_side_effects() || (*r).spec_has_side_effects(),
            Matcher::Or(l, r) => (*l).spec_has_side_effects() || (*r).spec_has_side_effects(),
            Matcher::Not(m) => (*m).spec_has_side_effects(),
            Matcher::Group(m) => (*m).spec_has_side_effects(),
        }
    }

    /// What one evaluation against `entry` writes to the sink, under
    /// short-circuit order: a child standing after the deciding child of
    /// a combinator does not run, so it writes nothing.
    pub open spec fn output_of(self, entry: Entry) -> Seq<char>
        decreases self,
    {
        match self {
            Matcher::Name(_) => Seq::empty(),
            Matcher::Print(_) => entry.path@ + newline(),
            Matcher::And(l, r) => (*l).output_of(entry) + if (*l).spec_matches(entry) {
                (*r).output_of(entry)
            } else {
                Seq::empty()
            },
            Matcher::Or(l, r) => (*l).output_of(entry) + if (*l).spec_matches(entry) {
                Seq::empty()
            } else {
                (*r).output_of(entry)
            },
            Matcher::Not(m) => (*m).output_of(entry),
            Matcher::Group(m) => (*m).output_of(entry),
        }
    }

    /// The leaf matchers of this tree, left to right.
    pub open spec fn leaves(self) -> Seq<Matcher>
        decreases self,
    {
        match self {
            Matcher::Name(_) => seq![self],
            Matcher::Print(_) => seq![self],
            Matcher::And(l, r) => (*l).leaves() + (*r).leaves(),
            Matcher::Or(l, r) => (*l).leaves() + (*r).leaves(),
            Matcher::Not(m) => (*m).leaves(),
            Matcher::Group(m) => (*m).leaves(),
        }
    }

    /// Evaluates this matcher against one entry, running the side effects
    /// of exactly the nodes that short-circuit evaluation reaches. The
    /// verdict is a function of the tree and the entry alone; what is
    /// written, when no write fails, is exactly `output_of`; a tree
    /// without declared side effects leaves the context untouched.
    pub fn matches(&self, entry: &Entry, io: &mut MatcherIO) -> (r: bool)
        ensures
            r == self.spec_matches(*entry),
            final(io).spec_is_capture() == old(io).spec_is_capture(),
            old(io).failed() ==> *final(io) == *old(io),
            !final(io).failed() ==> final(io).out() == old(io).out() + self.output_of(*entry),
            old(io).spec_is_capture() && !old(io).failed() ==> !final(io).failed(),
            !self.spec_has_side_effects() ==> *final(io) == *old(io),
        decreases self,
    {
        match self {
            Matcher::Name(m) => {
                let v = m.matches(entry, io);
                proof {
                    assert(old(io).out() + self.output_of(*entry) =~= old(io).out());
                }
                v
            },
            Matcher::Print(p) => p.matches(entry, io),
            Matcher::And(l, r) => {
                let lv = l.matches(entry, io);
                if lv {
                    let rv = r.matches(entry, io);
                    proof {
                        if !io.failed() {
                            assert(io.out() == old(io).out() + (*l).output_of(*entry)
                                + (*r).output_of(*entry));
                            assert(old(io).out() + (*l).output_of(*entry)
                                + (*r).output_of(*entry) =~= old(io).out() + self.output_of(
                                *entry,
                            ));
                        }
                    }
                    rv
                } else {
                    proof {
                        if !io.failed() {
                            assert(old(io).out() + (*l).output_of(*entry) =~= old(io).out()
                                + self.output_of(*entry));
                        }
                    }
                    false
                }
            },
            Matcher::Or(l, r) => {
                let lv = l.matches(entry, io);
                if lv {
                    proof {
                        if !io.failed() {
                            assert(old(io).out() + (*l).output_of(*entry) =~= old(io).out()
                                + self.output_of(*entry));
                        }
                    }
                    true
                } else {
                    let rv = r.matches(entry, io);
                    proof {
                        if !io.failed() {
                            assert(old(io).out() + (*l).output_of(*entry)
                                + (*r).output_of(*entry) =~= old(io).out() + self.output_of(
                                *entry,
                            ));
                        }
                    }
                    rv
                }
            },
            Matcher::Not(m) => {
                let v = m.matches(entry, io);
                !v
            },
            Matcher::Group(m) => m.matches(entry, io),
        }
    }

    /// Reports the declared side-effect flag of this tree: the logical OR
    /// of the declared flags of its leaves, fixed by the tree's
    /// construction and stable across repeated queries.
    pub fn has_side_effects(&self) -> (r: bool)
        ensures
            r == self.spec_has_side_effects(),
        decreases self,
    {
        match self {
            Matcher::Name(m) => m.has_side_effects(),
            Matcher::Print(p) => p.has_side_effects(),
            Matcher::And(l, r) => l.has_side_effects() || r.has_side_effects(),
            Matcher::Or(l, r) => l.has_side_effects() || r.has_side_effects(),
            Matcher::Not(m) => m.has_side_effects(),
            Matcher::Group(m) => m.has_side_effects(),
        }
    }
}

/// Law: AND short-circuits. When the left child is not satisfied, the
/// conjunction is not satisfied, and evaluation writes only what the left
/// child writes: the right child, side effects and all, does not run.
pub proof fn lemma_and_short_circuit(l: Box<Matcher>, r: Box<Matcher>, entry: Entry)
    requires
        !(*l).spec_matches(entry),
    ensures
        !Matcher::And(l, r).spec_matches(entry),
        Matcher::And(l, r).output_of(entry) == (*l).output_of(entry),
{
    assert(Matcher::And(l, r).output_of(entry) =~= (*l).output_of(entry));
}

/// Law: OR short-circuits. When the left child is satisfied, the
/// disjunction is satisfied, and evaluation writes only what the left
/// child writes: the right child, side effects and all, does not run.
pub proof fn lemma_or_short_circuit(l: Box<Matcher>, r: Box<Matcher>, entry: Entry)
    requires
        (*l).spec_matches(entry),
    ensures
        Matcher::Or(l, r).spec_matches(entry),
        Matcher::Or(l, r).output_of(entry) == (*l).output_of(entry),
{
    assert(Matcher::Or(l, r).output_of(entry) =~= (*l).output_of(entry));
}

/// Law: NOT inverts the child's verdict and passes the child's writes
/// through unchanged: the child runs, and its side effect still occurs,
/// exactly once.
pub proof fn lemma_not_inverts(m: Box<Matcher>, entry: Entry)
    ensures
        Matcher::Not(m).spec_matches(entry) == !(*m).spec_matches(entry),
        Matcher::Not(m).output_of(entry) == (*m).output_of(entry),
        Matcher::Not(m).spec_has_side_effects() == (*m).spec_has_side_effects(),
{
}

/// Law: a name matcher is pure. It declares no side effect, writes
/// nothing, and its verdict is a function of its pattern and the entry's
/// base name alone — so repeated evaluation against the same entry gives
/// the same verdict and no observable effect.
pub proof fn lemma_name_matcher_pure(m: NameMatcher, entry: Entry)
    ensures
        !Matcher::Name(m).spec_has_side_effects(),
        Matcher::Name(m).output_of(entry) == Seq::<char>::empty(),
        Matcher::Name(m).spec_matches(entry) == wildcard_matches(m.pattern_spec(), entry.name@),
{
}

/// Law: the printer is always satisfied, whatever the entry holds, and
/// each evaluation writes exactly the entry's full path followed by one
/// line terminator — so outputs of successive evaluations concatenate in
/// call order.
pub proof fn lemma_printer_prints_path(p: Printer, entry: Entry)
    ensures
        Matcher::Print(p).spec_matches(entry),
        Matcher::Print(p).output_of(entry) == entry.path@ + newline(),
        Matcher::Print(p).spec_has_side_effects(),
{
}

/// Law: every element of `leaves` is a leaf node, and the declared
/// side-effect flag of a tree equals the logical OR of the declared flags
/// of its leaves, whatever the shape of the tree.
pub proof fn lemma_side_effects_or_of_leaves(m: Matcher)
    ensures
        forall|i: int|
            0 <= i < m.leaves().len() ==> (#[trigger] m.leaves()[i]) is Name || m.leaves()[i]
                is Print,
        m.spec_has_side_effects() <==> exists|i: int|
            0 <= i < m.leaves().len() && (#[trigger] m.leaves()[i]).spec_has_side_effects(),
    decreases m,
{
    match m {
        Matcher::Name(_) => {
            assert(m.leaves() == seq![m]);
            assert(m.leaves()[0] == m);
        },
        Matcher::Print(_) => {
            assert(m.leaves() == seq![m]);
            assert(m.leaves()[0].spec_has_side_effects());
        },
        Matcher::And(l, r) | Matcher::Or(l, r) => {
            let ll = (*l).leaves();
            let rl = (*r).leaves();
            lemma_side_effects_or_of_leaves(*l);
            lemma_side_effects_or_of_leaves(*r);
            assert(m.leaves() == ll + rl);
            assert forall|i: int|
                0 <= i < m.leaves().len() implies (#[trigger] m.leaves()[i]) is Name
                || m.leaves()[i] is Print by {
                if i < ll.len() {
                    assert(m.leaves()[i] == ll[i]);
                } else {
                    assert(m.leaves()[i] == rl[i - ll.len()]);
                }
            }
            if m.spec_has_side_effects() {
                if (*l).spec_has_side_effects() {
                    let i = choose|i: int|
                        0 <= i < ll.len() && (#[trigger] ll[i]).spec_has_side_effects();
                    assert(m.leaves()[i] == ll[i]);
                    assert(m.leaves()[i].spec_has_side_effects());
                } else {
                    let i = choose|i: int|
                        0 <= i < rl.len() && (#[trigger] rl[i]).spec_has_side_effects();
                    assert(m.leaves()[ll.len() + i] == rl[i]);
                    assert(m.leaves()[ll.len() + i].spec_has_side_effects());
                }
            }
            if exists|i: int|
                0 <= i < m.leaves().len() && (#[trigger] m.leaves()[i]).spec_has_side_effects() {
                let i = choose|i: int|
                    0 <= i < m.leaves().len() && (
                    #[trigger] m.leaves()[i]).spec_has_side_effects();
                if i < ll.len() {
                    assert(ll[i] == m.leaves()[i]);
                    assert(ll[i].spec_has_side_effects());
                } else {
                    assert(rl[i - ll.len()] == m.leaves()[i]);
                    assert(rl[i - ll.len()].spec_has_side_effects());
                }
            }
        },
        Matcher::Not(c) | Matcher::Group(c) => {
            lemma_side_effects_or_of_leaves(*c);
            assert(m.leaves() == (*c).leaves());
        },
    }
}

} // verus!
