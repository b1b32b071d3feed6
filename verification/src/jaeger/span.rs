//! Jaeger's span state, and the builder that derives it.

use crate::jaeger::sampler::Sampler;
use crate::span::{BaggageItem, BaggageModel, ContextModel, SpanModel, clone_baggage};
use crate::tag::{Tag, TagModel};
use crate::time::Timestamp;
use futures::sync::mpsc::UnboundedSender;
use std::sync::Arc;
use vstd::prelude::*;

verus! {

pub type Span = crate::span::Span<SpanState>;

pub type FinishedSpan = crate::span::FinishedSpan<SpanState>;

pub type SpanReference = crate::span::SpanReference<SpanState>;

/// Trusted: `rand::random`, a 64-bit number from the thread's generator.
/// Nothing is claimed of it.
#[verifier::external_body]
fn random_u64() -> (n: u64) {
    rand::random()
}

/// The 128-bit identifier that all spans of a trace share.
#[derive(Debug, Clone, Copy, PartialEq, Eq, Structural)]
pub struct TraceId {
    pub low: u64,
    pub high: u64,
}

impl TraceId {
    /// A fresh identifier, both halves random.
    pub fn new() -> Self {
        let low = random_u64();
        let high = random_u64();
        Self { low, high }
    }
}

/// Where a span stands in its trace.
#[derive(Debug, Clone, Copy)]
pub struct SpanState {
    pub trace_id: TraceId,
    pub span_id: u64,
    pub parent_span_id: Option<u64>,
    pub is_sampled: bool,
}

/// The state of a span with identifier `span_id` whose parent is in state
/// `parent`: same trace, same sampling flag, the parent's span as its parent.
pub open spec fn child_state(parent: SpanState, span_id: u64) -> SpanState {
    SpanState {
        trace_id: parent.trace_id,
        span_id,
        parent_span_id: Some(parent.span_id),
        is_sampled: parent.is_sampled,
    }
}

impl SpanState {
    /// The state of the root span of a trace.
    pub fn new(trace_id: TraceId, span_id: u64, is_sampled: bool) -> (state: Self)
        ensures
            state == (SpanState { trace_id, span_id, parent_span_id: None, is_sampled }),
    {
        Self { trace_id, span_id, is_sampled, parent_span_id: None }
    }

    /// The state of a child of `parent` with the identifier `span_id`.
    pub fn child(parent: Self, span_id: u64) -> (state: Self)
        ensures
            state == child_state(parent, span_id),
    {
        Self {
            trace_id: parent.trace_id,
            span_id,
            parent_span_id: Some(parent.span_id),
            is_sampled: parent.is_sampled,
        }
    }

    /// The state of a child of `parent` with a fresh random identifier.
    pub fn from_parent(parent: Self) -> (state: Self)
        ensures
            state == child_state(parent, state.span_id),
    {
        Self::child(parent, random_u64())
    }
}

impl Default for SpanState {
    /// The state of an unsampled root span with fresh random identifiers.
    fn default() -> (state: Self)
        ensures
            state.parent_span_id is None,
            !state.is_sampled,
    {
        Self::new(TraceId::new(), random_u64(), false)
    }
}

/// What a [`SpanBuilder`] has accumulated.
pub ghost struct BuilderModel {
    pub operation_name: Seq<char>,
    pub start_time: Option<Timestamp>,
    pub tags: Seq<TagModel>,
    pub references: Seq<SpanReference>,
    pub baggage: Seq<BaggageModel>,
}

/// The fluent accumulator for a Jaeger span.
pub struct SpanBuilder<P: Sampler> {
    sender: UnboundedSender<FinishedSpan>,
    operation_name: String,
    start_time: Option<Timestamp>,
    tags: Vec<Tag>,
    references: Vec<SpanReference>,
    baggage_items: Vec<BaggageItem>,
    sampler: Arc<P>,
}

impl<P: Sampler> View for SpanBuilder<P> {
    type V = BuilderModel;

    closed spec fn view(&self) -> BuilderModel {
        BuilderModel {
            operation_name: self.operation_name@,
            start_time: self.start_time,
            tags: self.tags.deep_view(),
            references: self.references@,
            baggage: self.baggage_items.deep_view(),
        }
    }
}

/// The parent whose state a span is derived from: that of the last
/// child-of reference, if there is one. References that only follow from
/// another span are kept but derive nothing.
pub open spec fn chosen_parent(references: Seq<SpanReference>) -> Option<SpanState>
    decreases references.len(),
{
    if references.len() == 0 {
        None
    } else {
        match references.last() {
            crate::span::SpanReference::ChildOf(parent) => Some(parent),
            crate::span::SpanReference::FollowsFrom(_) => chosen_parent(references.drop_last()),
        }
    }
}

/// The parent that is chosen is that of the last child-of reference: behind
/// it stand only references that follow from another span, and where no
/// parent is chosen, no reference is a child-of reference. Earlier child-of
/// references, and all others, derive nothing.
pub proof fn lemma_chosen_parent_is_the_last_child_of(references: Seq<SpanReference>)
    ensures
        match chosen_parent(references) {
            Some(parent) => exists|i: int|
                {
                    &&& 0 <= i < references.len()
                    &&& #[trigger] references[i] == crate::span::SpanReference::ChildOf(parent)
                    &&& forall|j: int|
                        i < j < references.len() ==> (#[trigger] references[j]) is FollowsFrom
                },
            None => forall|j: int|
                0 <= j < references.len() ==> (#[trigger] references[j]) is FollowsFrom,
        },
    decreases references.len(),
{
    if references.len() > 0 {
        let last = references.len() - 1;
        match references.last() {
            crate::span::SpanReference::ChildOf(parent) => {
                assert(references[last] == crate::span::SpanReference::ChildOf(parent));
            },
            crate::span::SpanReference::FollowsFrom(_) => {
                let earlier = references.drop_last();
                lemma_chosen_parent_is_the_last_child_of(earlier);
                match chosen_parent(earlier) {
                    Some(parent) => {
                        let i = choose|i: int|
                            {
                                &&& 0 <= i < earlier.len()
                                &&& #[trigger] earlier[i] == crate::span::SpanReference::ChildOf(
                                    parent,
                                )
                                &&& forall|j: int|
                                    i < j < earlier.len() ==> (#[trigger] earlier[j]) is FollowsFrom
                            };
                        assert(references[i] == earlier[i]);
                        assert forall|j: int| i < j < references.len() implies (
                        #[trigger] references[j]) is FollowsFrom by {
                            if j < last {
                                assert(references[j] == earlier[j]);
                            }
                        }
                    },
                    None => {
                        assert forall|j: int| 0 <= j < references.len() implies (
                        #[trigger] references[j]) is FollowsFrom by {
                            if j < last {
                                assert(references[j] == earlier[j]);
                            }
                        }
                    },
                }
            },
        }
    }
}

/// What a builder holds after `child_of` a span with the context `parent`:
/// the parent's baggage behind its own, and one more child-of reference.
pub open spec fn with_parent(
    builder: BuilderModel,
    parent: ContextModel<SpanState>,
) -> BuilderModel {
    BuilderModel {
        baggage: builder.baggage + parent.baggage,
        references: builder.references.push(crate::span::SpanReference::ChildOf(parent.state)),
        ..builder
    }
}

/// The span that a builder starts, given the fresh identifiers and the clock
/// reading that were drawn for it.
///
/// With a parent, the span joins the parent's trace and inherits its sampling
/// flag; the sampler is not asked. Without one, the span is the root of the
/// trace `fresh_trace`, the sampler decides once, and its tags follow the
/// builder's.
pub open spec fn started<P: Sampler>(
    builder: BuilderModel,
    sampler: P,
    fresh_trace: TraceId,
    fresh_span: u64,
    now: Timestamp,
) -> SpanModel<SpanState> {
    let start_time = match builder.start_time {
        Some(time) => time,
        None => now,
    };
    match chosen_parent(builder.references) {
        Some(parent) => SpanModel {
            operation_name: builder.operation_name,
            start_time,
            tags: builder.tags,
            references: builder.references,
            context: ContextModel {
                state: child_state(parent, fresh_span),
                baggage: builder.baggage,
            },
        },
        None => SpanModel {
            operation_name: builder.operation_name,
            start_time,
            tags: builder.tags + sampler.describes(),
            references: builder.references,
            context: ContextModel {
                state: SpanState {
                    trace_id: fresh_trace,
                    span_id: fresh_span,
                    parent_span_id: None,
                    is_sampled: sampler.decides(fresh_trace, builder.operation_name),
                },
                baggage: builder.baggage,
            },
        },
    }
}

/// A span started as the child of a parent is in the parent's trace, names the
/// parent's span as its parent, carries the parent's sampling flag and holds
/// all of the parent's baggage. No sampler is asked: the tags are those of the
/// builder.
pub proof fn lemma_child_inherits_from_parent<P: Sampler>(
    builder: BuilderModel,
    parent: ContextModel<SpanState>,
    sampler: P,
    fresh_trace: TraceId,
    fresh_span: u64,
    now: Timestamp,
)
    ensures
        ({
            let child = started(
                with_parent(builder, parent),
                sampler,
                fresh_trace,
                fresh_span,
                now,
            );
            &&& child.context.state.trace_id == parent.state.trace_id
            &&& child.context.state.parent_span_id == Some(parent.state.span_id)
            &&& child.context.state.is_sampled == parent.state.is_sampled
            &&& child.context.state.span_id == fresh_span
            &&& forall|i: int|
                0 <= i < parent.baggage.len() ==> child.context.baggage.contains(
                    #[trigger] parent.baggage[i],
                )
            &&& child.tags == builder.tags
        }),
{
    let joined = with_parent(builder, parent);
    assert(joined.references.last() == crate::span::SpanReference::ChildOf(parent.state));
    assert forall|i: int| 0 <= i < parent.baggage.len() implies joined.baggage.contains(
        #[trigger] parent.baggage[i],
    ) by {
        assert(joined.baggage[builder.baggage.len() + i] == parent.baggage[i]);
    }
}

/// All spans of a trace carry one trace id: two spans started as children of
/// the same parent, by whatever builders and samplers, are in the parent's
/// trace, and so is a child of either of them.
pub proof fn lemma_trace_id_is_shared<P: Sampler, Q: Sampler>(
    parent: ContextModel<SpanState>,
    first: BuilderModel,
    first_sampler: P,
    second: BuilderModel,
    second_sampler: Q,
    grandchild: BuilderModel,
    fresh_trace: TraceId,
    first_id: u64,
    second_id: u64,
    third_id: u64,
    now: Timestamp,
)
    ensures
        ({
            let a = started(with_parent(first, parent), first_sampler, fresh_trace, first_id, now);
            let b = started(
                with_parent(second, parent),
                second_sampler,
                fresh_trace,
                second_id,
                now,
            );
            let c = started(
                with_parent(grandchild, a.context),
                second_sampler,
                fresh_trace,
                third_id,
                now,
            );
            &&& a.context.state.trace_id == parent.state.trace_id
            &&& b.context.state.trace_id == a.context.state.trace_id
            &&& c.context.state.trace_id == a.context.state.trace_id
        }),
{
    lemma_child_inherits_from_parent(first, parent, first_sampler, fresh_trace, first_id, now);
    lemma_child_inherits_from_parent(second, parent, second_sampler, fresh_trace, second_id, now);
    let a = started(with_parent(first, parent), first_sampler, fresh_trace, first_id, now);
    lemma_child_inherits_from_parent(
        grandchild,
        a.context,
        second_sampler,
        fresh_trace,
        third_id,
        now,
    );
}

/// A span started without a child-of reference is the root of the fresh
/// trace: it has no parent, the sampler decides whether it is sampled, and
/// the sampler's tags follow the builder's.
pub proof fn lemma_root_asks_the_sampler<P: Sampler>(
    builder: BuilderModel,
    sampler: P,
    fresh_trace: TraceId,
    fresh_span: u64,
    now: Timestamp,
)
    requires
        chosen_parent(builder.references) is None,
    ensures
        ({
            let root = started(builder, sampler, fresh_trace, fresh_span, now);
            &&& root.context.state.trace_id == fresh_trace
            &&& root.context.state.span_id == fresh_span
            &&& root.context.state.parent_span_id is None
            &&& root.context.state.is_sampled == sampler.decides(
                fresh_trace,
                builder.operation_name,
            )
            &&& root.tags == builder.tags + sampler.describes()
        }),
{
}

/// With a constant sampler every root is sampled as the sampler was built:
/// always with `true`, never with `false`.
pub proof fn lemma_const_sampler_decides_every_root(
    builder: BuilderModel,
    sampler: crate::jaeger::sampler::ConstSampler,
    fresh_trace: TraceId,
    fresh_span: u64,
    now: Timestamp,
)
    requires
        chosen_parent(builder.references) is None,
    ensures
        started(builder, sampler, fresh_trace, fresh_span, now).context.state.is_sampled
            == sampler.decision(),
{
}

proof fn lemma_chosen_parent_step(references: Seq<SpanReference>, i: int)
    requires
        0 <= i < references.len(),
    ensures
        chosen_parent(references.subrange(0, i + 1)) == match references[i] {
            crate::span::SpanReference::ChildOf(parent) => Some(parent),
            crate::span::SpanReference::FollowsFrom(_) => chosen_parent(references.subrange(0, i)),
        },
{
    let prefix = references.subrange(0, i + 1);
    assert(prefix.last() == references[i]);
    assert(prefix.drop_last() =~= references.subrange(0, i));
}

fn find_parent(references: &Vec<SpanReference>) -> (parent: Option<SpanState>)
    ensures
        parent == chosen_parent(references@),
{
    let mut found: Option<SpanState> = None;
    let mut i: usize = 0;
    while i < references.len()
        invariant
            i <= references.len(),
            found == chosen_parent(references@.subrange(0, i as int)),
        decreases references.len() - i,
    {
        proof {
            lemma_chosen_parent_step(references@, i as int);
        }
        match &references[i] {
            crate::span::SpanReference::ChildOf(parent) => {
                found = Some(*parent);
            },
            crate::span::SpanReference::FollowsFrom(_) => {},
        }
        i += 1;
    }
    assert(references@.subrange(0, references.len() as int) =~= references@);
    found
}

impl<P: Sampler> SpanBuilder<P> {
    /// The sampler that is asked when the span turns out to be a root.
    pub closed spec fn sampler(&self) -> P {
        *self.sampler
    }

    /// A builder for a span called `operation_name`, with nothing else set.
    pub fn new(
        operation_name: &str,
        sampler: Arc<P>,
        sender: UnboundedSender<FinishedSpan>,
    ) -> (builder: Self)
        ensures
            builder.sampler() == *sampler,
            builder@ == (BuilderModel {
                operation_name: operation_name@,
                start_time: None,
                tags: Seq::empty(),
                references: Seq::empty(),
                baggage: Seq::empty(),
            }),
    {
        let builder = Self {
            sender,
            operation_name: operation_name.to_owned(),
            baggage_items: Vec::new(),
            tags: Vec::new(),
            references: Vec::new(),
            sampler,
            start_time: None,
        };
        assert(builder.tags.deep_view() =~= Seq::empty());
        assert(builder.baggage_items.deep_view() =~= Seq::empty());
        builder
    }

    /// Records a reference that derives no state.
    pub fn follows_from(self, span: &Span) -> (builder: Self)
        requires
            span@ is Some,
        ensures
            builder.sampler() == self.sampler(),
            builder@ == (BuilderModel {
                references: self@.references.push(
                    crate::span::SpanReference::FollowsFrom(span@->0.context.state),
                ),
                ..self@
            }),
    {
        let mut builder = self;
        builder.references.push(crate::span::SpanReference::FollowsFrom(*span.context().state()));
        builder
    }

    /// Starts the span with the identifiers and the clock reading given.
    ///
    /// `fresh_trace` is used only when the span is a root, `now` only when no
    /// start time was set.
    pub fn start_at(self, fresh_trace: TraceId, fresh_span: u64, now: Timestamp) -> (span: Span)
        ensures
            span@ == Some(started(self@, self.sampler(), fresh_trace, fresh_span, now)),
    {
        let mut tags = self.tags;
        let state = match find_parent(&self.references) {
            Some(parent) => SpanState::child(parent, fresh_span),
            None => {
                let (is_sampled, sampler_tags) = self.sampler.is_sampled(
                    &fresh_trace,
                    self.operation_name.as_str(),
                );
                let ghost before = tags.deep_view();
                let mut i: usize = 0;
                while i < sampler_tags.len()
                    invariant
                        i <= sampler_tags.len(),
                        tags.deep_view() == before + sampler_tags.deep_view().subrange(0, i as int),
                    decreases sampler_tags.len() - i,
                {
                    let ghost so_far = tags.deep_view();
                    tags.push(sampler_tags[i].clone());
                    assert(tags.deep_view() =~= so_far.push(sampler_tags[i as int].deep_view()));
                    let ghost described = sampler_tags.deep_view();
                    assert(described.subrange(0, i + 1) =~= described.subrange(0, i as int).push(
                        described[i as int],
                    ));
                    i += 1;
                }
                assert(sampler_tags.deep_view().subrange(0, i as int) =~= sampler_tags.deep_view());
                SpanState::new(fresh_trace, fresh_span, is_sampled)
            },
        };
        let start_time = match self.start_time {
            Some(time) => time,
            None => now,
        };
        crate::span::Span::new(
            self.sender,
            self.operation_name,
            start_time,
            tags,
            self.references,
            state,
            self.baggage_items,
        )
    }
}

impl<P: Sampler> crate::span::SpanBuilder<SpanState> for SpanBuilder<P> {
    fn start_time(self, time: Timestamp) -> (builder: Self)
        ensures
            builder.sampler() == self.sampler(),
            builder@ == (BuilderModel { start_time: Some(time), ..self@ }),
    {
        let mut builder = self;
        builder.start_time = Some(time);
        builder
    }

    fn tag(self, tag: Tag) -> (builder: Self)
        ensures
            builder.sampler() == self.sampler(),
            builder@ == (BuilderModel { tags: self@.tags.push(tag.deep_view()), ..self@ }),
    {
        let mut builder = self;
        builder.tags.push(tag);
        assert(builder.tags.deep_view() =~= self.tags.deep_view().push(tag.deep_view()));
        builder
    }

    fn child_of(self, span: &Span) -> (builder: Self)
        ensures
            builder.sampler() == self.sampler(),
            builder@ == with_parent(self@, span@->0.context),
    {
        let mut builder = self;
        let context = span.context();
        let mut inherited = clone_baggage(context.baggage_items());
        builder.baggage_items.append(&mut inherited);
        builder.references.push(crate::span::SpanReference::ChildOf(*context.state()));
        assert(builder.baggage_items.deep_view() =~= self.baggage_items.deep_view()
            + context@.baggage);
        builder
    }

    fn start(self) -> (span: Span)
        ensures
            exists|fresh_trace: TraceId, fresh_span: u64, now: Timestamp|
                span@ == Some(
                    #[trigger] started(self@, self.sampler(), fresh_trace, fresh_span, now),
                ),
    {
        let fresh_trace = TraceId::new();
        let fresh_span = random_u64();
        let now = Timestamp::now();
        self.start_at(fresh_trace, fresh_span, now)
    }
}

} // verus!
