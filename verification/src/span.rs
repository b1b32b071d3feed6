//! Spans: the live handle that application code annotates, the record it
//! turns into when finished, and the identity both carry.

use crate::queue::enqueue;
use crate::tag::{Tag, TagModel, clone_tags};
use crate::time::{Elapsed, Timestamp};
use futures::sync::mpsc::UnboundedSender;
use vstd::prelude::*;

verus! {

/// A propagated key/value pair.
#[derive(Debug)]
pub struct BaggageItem {
    key: String,
    value: String,
}

/// What a [`BaggageItem`] denotes.
pub ghost struct BaggageModel {
    pub key: Seq<char>,
    pub value: Seq<char>,
}

impl DeepView for BaggageItem {
    type V = BaggageModel;

    closed spec fn deep_view(&self) -> BaggageModel {
        BaggageModel { key: self.key@, value: self.value@ }
    }
}

impl Clone for BaggageItem {
    fn clone(&self) -> (copy: Self)
        ensures
            copy.deep_view() == self.deep_view(),
    {
        BaggageItem { key: self.key.clone(), value: self.value.clone() }
    }
}

impl BaggageItem {
    pub fn new(key: &str, value: &str) -> (item: Self)
        ensures
            item.deep_view() == (BaggageModel { key: key@, value: value@ }),
    {
        Self { key: key.to_owned(), value: value.to_owned() }
    }

    pub fn key(&self) -> (key: &str)
        ensures
            key@ == self.deep_view().key,
    {
        self.key.as_str()
    }

    pub fn value(&self) -> (value: &str)
        ensures
            value@ == self.deep_view().value,
    {
        self.value.as_str()
    }
}

/// Copies a list of baggage items, one by one.
pub fn clone_baggage(items: &Vec<BaggageItem>) -> (copy: Vec<BaggageItem>)
    ensures
        copy.deep_view() == items.deep_view(),
{
    let mut copy: Vec<BaggageItem> = Vec::new();
    let mut i: usize = 0;
    while i < items.len()
        invariant
            i <= items.len(),
            copy.len() == i,
            forall|j: int| 0 <= j < i ==> copy[j].deep_view() == items[j].deep_view(),
        decreases items.len() - i,
    {
        copy.push(items[i].clone());
        i += 1;
    }
    assert(copy.deep_view() =~= items.deep_view());
    copy
}

/// How a span relates to an earlier one, whose state it carries.
#[derive(Debug)]
pub enum SpanReference<S> {
    ChildOf(S),
    FollowsFrom(S),
}

impl<S: Copy> Clone for SpanReference<S> {
    fn clone(&self) -> (copy: Self)
        ensures
            copy == *self,
    {
        match self {
            SpanReference::ChildOf(state) => SpanReference::ChildOf(*state),
            SpanReference::FollowsFrom(state) => SpanReference::FollowsFrom(*state),
        }
    }
}

/// Copies a list of references, one by one.
pub fn clone_references<S: Copy>(references: &Vec<SpanReference<S>>) -> (copy: Vec<
    SpanReference<S>,
>)
    ensures
        copy@ == references@,
{
    let mut copy: Vec<SpanReference<S>> = Vec::new();
    let mut i: usize = 0;
    while i < references.len()
        invariant
            i <= references.len(),
            copy.len() == i,
            forall|j: int| 0 <= j < i ==> copy[j] == references[j],
        decreases references.len() - i,
    {
        copy.push(references[i].clone());
        i += 1;
    }
    assert(copy@ =~= references@);
    copy
}

/// The identity of a span: its backend state and its baggage.
#[derive(Debug)]
pub struct SpanContext<S> {
    state: S,
    baggage_items: Vec<BaggageItem>,
}

/// What a [`SpanContext`] denotes.
pub ghost struct ContextModel<S> {
    pub state: S,
    pub baggage: Seq<BaggageModel>,
}

impl<S> View for SpanContext<S> {
    type V = ContextModel<S>;

    closed spec fn view(&self) -> ContextModel<S> {
        ContextModel { state: self.state, baggage: self.baggage_items.deep_view() }
    }
}

impl<S> SpanContext<S> {
    pub fn new(state: S, baggage_items: Vec<BaggageItem>) -> (context: Self)
        ensures
            context@ == (ContextModel { state, baggage: baggage_items.deep_view() }),
    {
        Self { state, baggage_items }
    }

    pub fn state(&self) -> (state: &S)
        ensures
            *state == self@.state,
    {
        &self.state
    }

    pub fn baggage_items(&self) -> (items: &Vec<BaggageItem>)
        ensures
            items.deep_view() == self@.baggage,
    {
        &self.baggage_items
    }
}

/// What an unfinished span denotes.
pub ghost struct SpanModel<S> {
    pub operation_name: Seq<char>,
    pub start_time: Timestamp,
    pub tags: Seq<TagModel>,
    pub references: Seq<SpanReference<S>>,
    pub context: ContextModel<S>,
}

/// What a finished span denotes: the span as it was when it finished, and
/// the instant at which it did.
pub ghost struct FinishedModel<S> {
    pub span: SpanModel<S>,
    pub finish_time: Timestamp,
}

#[derive(Debug)]
struct Inner<S> {
    operation_name: String,
    start_time: Timestamp,
    tags: Vec<Tag>,
    references: Vec<SpanReference<S>>,
    context: SpanContext<S>,
}

impl<S> View for Inner<S> {
    type V = SpanModel<S>;

    closed spec fn view(&self) -> SpanModel<S> {
        SpanModel {
            operation_name: self.operation_name@,
            start_time: self.start_time,
            tags: self.tags.deep_view(),
            references: self.references@,
            context: self.context@,
        }
    }
}

/// A finished span: immutable, and owned by whoever reports it.
#[derive(Debug)]
pub struct FinishedSpan<S> {
    inner: Inner<S>,
    finish_time: Timestamp,
}

impl<S> View for FinishedSpan<S> {
    type V = FinishedModel<S>;

    closed spec fn view(&self) -> FinishedModel<S> {
        FinishedModel { span: self.inner@, finish_time: self.finish_time }
    }
}

impl<S: Copy> Clone for FinishedSpan<S> {
    fn clone(&self) -> (copy: Self)
        ensures
            copy@ == self@,
    {
        let context = SpanContext::new(
            *self.inner.context.state(),
            clone_baggage(self.inner.context.baggage_items()),
        );
        FinishedSpan {
            inner: Inner {
                operation_name: self.inner.operation_name.clone(),
                start_time: self.inner.start_time,
                tags: clone_tags(&self.inner.tags),
                references: clone_references(&self.inner.references),
                context,
            },
            finish_time: self.finish_time,
        }
    }
}

/// The time a finished span took: from its start to its finish, and nothing
/// where the finish was read before the start.
pub open spec fn duration_nanos<S>(span: FinishedModel<S>) -> int {
    if span.span.start_time.nanos_since_epoch() <= span.finish_time.nanos_since_epoch() {
        span.finish_time.nanos_since_epoch() - span.span.start_time.nanos_since_epoch()
    } else {
        0
    }
}

impl<S> FinishedSpan<S> {
    pub fn context(&self) -> (context: &SpanContext<S>)
        ensures
            context@ == self@.span.context,
    {
        &self.inner.context
    }

    pub fn operation_name(&self) -> (name: &str)
        ensures
            name@ == self@.span.operation_name,
    {
        self.inner.operation_name.as_str()
    }

    pub fn start_time(&self) -> (time: Timestamp)
        ensures
            time == self@.span.start_time,
    {
        self.inner.start_time
    }

    pub fn finish_time(&self) -> (time: Timestamp)
        ensures
            time == self@.finish_time,
    {
        self.finish_time
    }

    pub fn duration(&self) -> (elapsed: Elapsed)
        ensures
            elapsed.as_nanos() == duration_nanos(self@),
    {
        self.finish_time.elapsed_since(&self.inner.start_time)
    }

    pub fn tags(&self) -> (tags: &Vec<Tag>)
        ensures
            tags.deep_view() == self@.span.tags,
    {
        &self.inner.tags
    }

    pub fn references(&self) -> (references: &Vec<SpanReference<S>>)
        ensures
            references@ == self@.span.references,
    {
        &self.inner.references
    }
}

/// A unit of work in progress.
///
/// The handle is *active* from its creation until [`Span::finish`]; from then
/// on it is an empty shell, and the span it stood for travels on as a
/// [`FinishedSpan`].
#[verifier::reject_recursive_types(S)]
pub struct Span<S> {
    inner: Option<Inner<S>>,
    sender: UnboundedSender<FinishedSpan<S>>,
}

impl<S> View for Span<S> {
    type V = Option<SpanModel<S>>;

    closed spec fn view(&self) -> Option<SpanModel<S>> {
        match self.inner {
            Some(inner) => Some(inner@),
            None => None,
        }
    }
}

/// What finishing does to a span at the instant `now`: the handle it leaves
/// behind, and the record it hands on, if any.
pub open spec fn finish_outcome<S>(span: Option<SpanModel<S>>, now: Timestamp) -> (
    Option<SpanModel<S>>,
    Option<FinishedModel<S>>,
) {
    match span {
        Some(model) => (None, Some(FinishedModel { span: model, finish_time: now })),
        None => (None, None),
    }
}

/// A span hands on at most one record, however often it is finished: once a
/// span has been finished, finishing it again hands on nothing and leaves it
/// as it is.
pub proof fn lemma_finish_hands_on_once<S>(
    span: Option<SpanModel<S>>,
    first: Timestamp,
    second: Timestamp,
)
    ensures
        finish_outcome(finish_outcome(span, first).0, second).1 is None,
        finish_outcome(finish_outcome(span, first).0, second).0 == finish_outcome(span, first).0,
        finish_outcome(span, first).1 is Some <==> span is Some,
{
}

impl<S> Span<S> {
    /// An active span that reports to `sender` when it is finished.
    pub fn new(
        sender: UnboundedSender<FinishedSpan<S>>,
        operation_name: String,
        start_time: Timestamp,
        tags: Vec<Tag>,
        references: Vec<SpanReference<S>>,
        state: S,
        baggage_items: Vec<BaggageItem>,
    ) -> (span: Self)
        ensures
            span@ == Some(
                SpanModel {
                    operation_name: operation_name@,
                    start_time,
                    tags: tags.deep_view(),
                    references: references@,
                    context: ContextModel { state, baggage: baggage_items.deep_view() },
                },
            ),
    {
        let context = SpanContext::new(state, baggage_items);
        let inner = Some(Inner { operation_name, start_time, tags, references, context });
        Self { inner, sender }
    }

    /// Whether the span has not been finished yet.
    pub fn is_active(&self) -> (active: bool)
        ensures
            active == (self@ is Some),
    {
        self.inner.is_some()
    }

    pub fn is_finished(&self) -> (finished: bool)
        ensures
            finished == (self@ is None),
    {
        self.inner.is_none()
    }

    pub fn context(&self) -> (context: &SpanContext<S>)
        requires
            self@ is Some,
        ensures
            context@ == self@->0.context,
    {
        &self.inner.as_ref().unwrap().context
    }

    pub fn start_time(&self) -> (time: Timestamp)
        requires
            self@ is Some,
        ensures
            time == self@->0.start_time,
    {
        self.inner.as_ref().unwrap().start_time
    }

    pub fn tags(&self) -> (tags: &Vec<Tag>)
        requires
            self@ is Some,
        ensures
            tags.deep_view() == self@->0.tags,
    {
        &self.inner.as_ref().unwrap().tags
    }

    pub fn operation_name(&self) -> (name: &str)
        requires
            self@ is Some,
        ensures
            name@ == self@->0.operation_name,
    {
        self.inner.as_ref().unwrap().operation_name.as_str()
    }

    /// Renames an active span; a finished one is left as it is.
    pub fn set_operation_name(&mut self, op_name: String)
        ensures
            final(self)@ == match old(self)@ {
                Some(model) => Some(SpanModel { operation_name: op_name@, ..model }),
                None => None,
            },
    {
        match self.inner.take() {
            Some(inner) => {
                self.inner = Some(
                    Inner {
                        operation_name: op_name,
                        start_time: inner.start_time,
                        tags: inner.tags,
                        references: inner.references,
                        context: inner.context,
                    },
                );
            },
            None => {},
        }
    }

    /// Appends a tag to an active span; a finished one is left as it is.
    pub fn set_tag(&mut self, tag: Tag)
        ensures
            final(self)@ == match old(self)@ {
                Some(model) => Some(
                    SpanModel { tags: model.tags.push(tag.deep_view()), ..model },
                ),
                None => None,
            },
    {
        match self.inner.take() {
            Some(inner) => {
                let mut tags = inner.tags;
                let ghost before = tags.deep_view();
                tags.push(tag);
                assert(tags.deep_view() =~= before.push(tag.deep_view()));
                self.inner = Some(
                    Inner {
                        operation_name: inner.operation_name,
                        start_time: inner.start_time,
                        tags,
                        references: inner.references,
                        context: inner.context,
                    },
                );
            },
            None => {},
        }
    }

    /// Finishes the span at the instant `now` and hands back its record. A
    /// span that was finished before hands back nothing.
    pub fn finish_at(&mut self, now: Timestamp) -> (record: Option<FinishedSpan<S>>)
        ensures
            final(self)@ == finish_outcome(old(self)@, now).0,
            match record {
                Some(finished) => finish_outcome(old(self)@, now).1 == Some(finished@),
                None => finish_outcome(old(self)@, now).1 is None,
            },
    {
        match self.inner.take() {
            Some(inner) => Some(FinishedSpan { inner, finish_time: now }),
            None => None,
        }
    }

    /// Finishes the span now and queues its record for reporting. A span that
    /// was finished before is left as it is, and nothing is queued.
    pub fn finish(&mut self)
        ensures
            final(self)@ is None,
    {
        if self.inner.is_some() {
            let now = Timestamp::now();
            match self.finish_at(now) {
                Some(finished) => {
                    let _accepted = enqueue(&self.sender, finished);
                },
                None => {},
            }
        }
    }
}

/// The fluent accumulator from which a span is started.
pub trait SpanBuilder<S>: Sized {
    /// Starts the span that was described so far.
    fn start(self) -> (span: Span<S>)
        ensures
            span@ is Some,
    ;

    /// Makes the span to be a child of `parent`.
    fn child_of(self, parent: &Span<S>) -> Self
        requires
            parent@ is Some,
    ;

    /// Sets the instant at which the span started.
    fn start_time(self, time: Timestamp) -> Self;

    /// Appends a tag.
    fn tag(self, tag: Tag) -> Self;
}

} // verus!
