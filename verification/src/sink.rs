//! The output sink and the per-run evaluation context.
//!
//! Side-effecting matchers never touch the process environment directly:
//! they write through the context, whose sink is chosen at construction
//! time — the process's standard output in production, an in-memory
//! capture for tests and other observers.

use std::io::Write;
use vstd::prelude::*;
use vstd::string::StringExecFns;

verus! {

/// The sequence a line terminator adds to the sink.
pub open spec fn newline() -> Seq<char> {
    seq!['\n']
}

#[derive(Clone, Copy)]
enum SinkTarget {
    Standard,
    Capture,
}

/// The injected destination for side-effecting writes: either the
/// process's standard output or an in-memory capture, chosen once when the
/// sink is built.
pub struct OutputSink {
    target: SinkTarget,
    captured: String,
    written: Ghost<Seq<char>>,
}

/// Relies on `std::io::stdout` and the `Write` impl of its handle: writes
/// the text followed by a newline to the process's standard output, and
/// reports failure instead of panicking.
#[verifier::external_body]
fn write_standard_line(line: &str) -> bool {
    writeln!(std::io::stdout(), "{}", line).is_ok()
}

impl OutputSink {
    /// Whether this sink captures its output in memory.
    pub closed spec fn spec_is_capture(self) -> bool {
        self.target is Capture
    }

    /// Everything successfully written to this sink so far, in order.
    pub closed spec fn out(self) -> Seq<char> {
        if self.target is Capture {
            self.captured@
        } else {
            self.written@
        }
    }

    /// A sink whose writes reach the process's standard output.
    pub fn standard() -> (r: OutputSink)
        ensures
            !r.spec_is_capture(),
            r.out() == Seq::<char>::empty(),
    {
        OutputSink {
            target: SinkTarget::Standard,
            captured: String::new(),
            written: Ghost(Seq::empty()),
        }
    }

    /// A sink whose writes are captured in memory.
    pub fn capture() -> (r: OutputSink)
        ensures
            r.spec_is_capture(),
            r.out() == Seq::<char>::empty(),
    {
        OutputSink {
            target: SinkTarget::Capture,
            captured: String::new(),
            written: Ghost(Seq::empty()),
        }
    }

    /// Reports whether this sink captures its output in memory.
    pub fn is_capture(&self) -> (r: bool)
        ensures
            r == self.spec_is_capture(),
    {
        match self.target {
            SinkTarget::Capture => true,
            SinkTarget::Standard => false,
        }
    }

    /// Writes one line: the text followed by a line terminator. Reports
    /// whether the write succeeded; a capture sink never fails, and a
    /// failed write leaves the recorded output unchanged.
    pub fn write_line(&mut self, line: &str) -> (ok: bool)
        ensures
            final(self).spec_is_capture() == old(self).spec_is_capture(),
            old(self).spec_is_capture() ==> ok,
            ok ==> final(self).out() == old(self).out() + line@ + newline(),
            !ok ==> final(self).out() == old(self).out(),
    {
        match self.target {
            SinkTarget::Capture => {
                self.captured.append(line);
                self.captured.append("\n");
                proof {
                    reveal_strlit("\n");
                    assert("\n"@ =~= newline());
                }
                true
            },
            SinkTarget::Standard => {
                let ok = write_standard_line(line);
                if ok {
                    self.written = Ghost(self.written@ + line@ + newline());
                }
                ok
            },
        }
    }

    /// For a capture sink: a copy of everything written so far.
    pub fn captured(&self) -> (r: String)
        requires
            self.spec_is_capture(),
        ensures
            r@ == self.out(),
    {
        String::from_str(self.captured.as_str())
    }
}

/// The per-run evaluation context handed to every matcher call: carries
/// the output sink and the cross-call state of one traversal — whether a
/// sink write has failed, which the traversal driver must treat as fatal
/// to the run.
pub struct MatcherIO {
    sink: OutputSink,
    write_error: bool,
}

impl MatcherIO {
    /// Everything successfully written through this context, in order.
    pub closed spec fn out(self) -> Seq<char> {
        self.sink.out()
    }

    /// Whether a sink write has failed during this run.
    pub closed spec fn failed(self) -> bool {
        self.write_error
    }

    /// Whether this context writes to an in-memory capture sink.
    pub closed spec fn spec_is_capture(self) -> bool {
        self.sink.spec_is_capture()
    }

    /// A fresh context over the given sink, with no failure recorded.
    pub fn new(sink: OutputSink) -> (r: MatcherIO)
        ensures
            r.out() == sink.out(),
            !r.failed(),
            r.spec_is_capture() == sink.spec_is_capture(),
    {
        MatcherIO { sink, write_error: false }
    }

    /// Writes one line (the text plus a line terminator) through the sink.
    /// After a failed write the run is poisoned: nothing further is
    /// written, and the failure stays recorded for the driver to observe.
    pub fn print_line(&mut self, line: &str)
        ensures
            final(self).spec_is_capture() == old(self).spec_is_capture(),
            old(self).failed() ==> *final(self) == *old(self),
            !old(self).failed() && !final(self).failed() ==> final(self).out() == old(self).out()
                + line@ + newline(),
            !old(self).failed() && final(self).failed() ==> final(self).out() == old(self).out(),
            old(self).spec_is_capture() && !old(self).failed() ==> !final(self).failed(),
    {
        if self.write_error {
            return;
        }
        let ok = self.sink.write_line(line);
        if !ok {
            self.write_error = true;
        }
    }

    /// Reports whether a sink write has failed during this run. The
    /// traversal driver checks this after each evaluation and aborts the
    /// run on failure, since dropped output breaks the tool's contract.
    pub fn write_failed(&self) -> (r: bool)
        ensures
            r == self.failed(),
    {
        self.write_error
    }

    /// For a context over a capture sink: everything written so far, as a
    /// string. Over a standard-output sink there is nothing to hand back.
    pub fn output_as_string(&self) -> (r: Option<String>)
        ensures
            self.spec_is_capture() ==> (r matches Some(s) && s@ == self.out()),
            !self.spec_is_capture() ==> r is None,
    {
        if self.sink.is_capture() {
            Some(self.sink.captured())
        } else {
            None
        }
    }
}

} // verus!
