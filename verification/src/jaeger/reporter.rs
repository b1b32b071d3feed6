//! Reporters decide what becomes of a finished span: nothing, a line of
//! text, a place in the next batch, or all of these.

use crate::jaeger::span::{FinishedSpan, SpanState};
use crate::jaeger::transport::{Transport, after_append, after_flush, with_cut};
use crate::span::FinishedModel;
use std::io::Write;
use vstd::prelude::*;

verus! {

/// The policy for finished spans.
///
/// A reporter of this crate keeps account of the spans it was handed, and
/// says what closing does to it. One written elsewhere keeps the two
/// functions below as they are, and that it takes every span it is handed
/// is taken on trust.
pub trait Reporter {
    /// The spans that the reporter was handed so far, oldest first.
    open spec fn received(&self) -> Seq<FinishedModel<SpanState>> {
        arbitrary::<spec_fn(&Self) -> Seq<FinishedModel<SpanState>>>()(self)
    }

    /// Whether `closed` is what closing makes of this reporter.
    open spec fn closes_to(&self, closed: &Self) -> bool {
        arbitrary::<spec_fn(&Self, &Self) -> bool>()(self, closed)
    }

    /// Takes a finished span.
    fn report(&mut self, span: FinishedSpan)
        ensures
            final(self).received() == old(self).received().push(span@),
    ;

    /// Brings what is under way to an end. No span is taken or lost.
    fn close(&mut self)
        ensures
            old(self).closes_to(final(self)),
            final(self).received() == old(self).received(),
    ;
}

/// Discards every span.
pub struct NullReporter {
    seen: Ghost<Seq<FinishedModel<SpanState>>>,
}

impl Default for NullReporter {
    fn default() -> (reporter: Self)
        ensures
            reporter.received() == Seq::<FinishedModel<SpanState>>::empty(),
    {
        NullReporter { seen: Ghost(Seq::empty()) }
    }
}

impl Reporter for NullReporter {
    closed spec fn received(&self) -> Seq<FinishedModel<SpanState>> {
        self.seen@
    }

    /// Nothing is under way, so closing changes nothing.
    open spec fn closes_to(&self, closed: &Self) -> bool {
        closed.received() == self.received()
    }

    fn report(&mut self, span: FinishedSpan) {
        proof {
            self.seen@ = self.seen@.push(span@);
        }
    }

    fn close(&mut self) {
    }
}

/// Trusted: `writeln!` to `std::io::stdout`, one line that describes the
/// span. A line that cannot be written is lost.
#[verifier::external_body]
fn print_span(span: &FinishedSpan) {
    let _ = writeln!(std::io::stdout(), "reporting span {:?}", span);
}

/// Prints every span to the standard output, for diagnosis.
pub struct LoggingReporter {
    seen: Ghost<Seq<FinishedModel<SpanState>>>,
}

impl LoggingReporter {
    pub fn new() -> (reporter: Self)
        ensures
            reporter.received() == Seq::<FinishedModel<SpanState>>::empty(),
    {
        Self { seen: Ghost(Seq::empty()) }
    }
}

impl Reporter for LoggingReporter {
    closed spec fn received(&self) -> Seq<FinishedModel<SpanState>> {
        self.seen@
    }

    /// Nothing is under way, so closing changes nothing.
    open spec fn closes_to(&self, closed: &Self) -> bool {
        closed.received() == self.received()
    }

    fn report(&mut self, span: FinishedSpan) {
        print_span(&span);
        proof {
            self.seen@ = self.seen@.push(span@);
        }
    }

    fn close(&mut self) {
    }
}

/// Hands every span to a transport, and flushes the transport on close.
pub struct RemoteReporter<T: Transport> {
    sender: T,
    seen: Ghost<Seq<FinishedModel<SpanState>>>,
}

impl<T: Transport> RemoteReporter<T> {
    /// The transport as it stands.
    pub closed spec fn spec_transport(&self) -> T {
        self.sender
    }

    pub fn new(sender: T) -> (reporter: Self)
        ensures
            reporter.spec_transport() == sender,
            reporter.received() == Seq::<FinishedModel<SpanState>>::empty(),
    {
        Self { sender, seen: Ghost(Seq::empty()) }
    }

    pub fn transport(&self) -> (transport: &T)
        ensures
            *transport == self.spec_transport(),
    {
        &self.sender
    }
}

impl<T: Transport> Reporter for RemoteReporter<T> {
    closed spec fn received(&self) -> Seq<FinishedModel<SpanState>> {
        self.seen@
    }

    /// Closing flushes the transport: what waited in its buffer leaves as
    /// one batch.
    open spec fn closes_to(&self, closed: &Self) -> bool {
        &&& closed.received() == self.received()
        &&& closed.spec_transport().buffered() == after_flush(
            self.spec_transport().buffered(),
        ).0
        &&& closed.spec_transport().batches_cut() == with_cut(
            self.spec_transport().batches_cut(),
            after_flush(self.spec_transport().buffered()).1,
        )
        &&& closed.spec_transport().capacity() == self.spec_transport().capacity()
    }

    fn report(&mut self, span: FinishedSpan)
        ensures
            final(self).spec_transport().buffered() == after_append(
                old(self).spec_transport().buffered(),
                old(self).spec_transport().capacity(),
                span@,
            ).0,
            final(self).spec_transport().batches_cut() == with_cut(
                old(self).spec_transport().batches_cut(),
                after_append(
                    old(self).spec_transport().buffered(),
                    old(self).spec_transport().capacity(),
                    span@,
                ).1,
            ),
            final(self).spec_transport().capacity() == old(self).spec_transport().capacity(),
    {
        proof {
            self.seen@ = self.seen@.push(span@);
        }
        self.sender.append(span);
    }

    fn close(&mut self)
        ensures
            final(self).spec_transport().buffered() == after_flush(
                old(self).spec_transport().buffered(),
            ).0,
            final(self).spec_transport().batches_cut() == with_cut(
                old(self).spec_transport().batches_cut(),
                after_flush(old(self).spec_transport().buffered()).1,
            ),
            final(self).spec_transport().capacity() == old(self).spec_transport().capacity(),
    {
        self.sender.flush();
    }
}

/// Hands every span to both of its reporters, the first one first. A
/// composite is a reporter itself, so any number of reporters can be joined.
pub struct CompositeReporter<A: Reporter, B: Reporter> {
    first: A,
    second: B,
}

impl<A: Reporter, B: Reporter> CompositeReporter<A, B> {
    /// The reporter that is handed every span first.
    pub closed spec fn spec_first(&self) -> A {
        self.first
    }

    /// The reporter that is handed every span second.
    pub closed spec fn spec_second(&self) -> B {
        self.second
    }

    pub fn new(first: A, second: B) -> (reporter: Self)
        ensures
            reporter.spec_first() == first,
            reporter.spec_second() == second,
    {
        Self { first, second }
    }

    pub fn first(&self) -> (first: &A)
        ensures
            *first == self.spec_first(),
    {
        &self.first
    }

    pub fn second(&self) -> (second: &B)
        ensures
            *second == self.spec_second(),
    {
        &self.second
    }
}

impl<A: Reporter, B: Reporter> Reporter for CompositeReporter<A, B> {
    /// A composite has received what its first reporter has.
    open spec fn received(&self) -> Seq<FinishedModel<SpanState>> {
        self.spec_first().received()
    }

    /// Closing closes both reporters.
    open spec fn closes_to(&self, closed: &Self) -> bool {
        &&& self.spec_first().closes_to(&closed.spec_first())
        &&& self.spec_second().closes_to(&closed.spec_second())
    }

    fn report(&mut self, span: FinishedSpan)
        ensures
            final(self).spec_first().received() == old(self).spec_first().received().push(span@),
            final(self).spec_second().received() == old(self).spec_second().received().push(
                span@,
            ),
    {
        let copy = span.clone();
        self.first.report(copy);
        self.second.report(span);
    }

    fn close(&mut self)
        ensures
            old(self).spec_first().closes_to(&final(self).spec_first()),
            old(self).spec_second().closes_to(&final(self).spec_second()),
            final(self).spec_first().received() == old(self).spec_first().received(),
            final(self).spec_second().received() == old(self).spec_second().received(),
    {
        self.first.close();
        self.second.close();
    }
}

} // verus!
