use futures::sync::mpsc::{unbounded, UnboundedReceiver};
use futures::Stream;
use opentracing_rs::jaeger::span::{FinishedSpan, Span, SpanReference, SpanState, TraceId};
use opentracing_rs::span::{clone_baggage, BaggageItem, SpanContext};
use opentracing_rs::tag::{Tag, TagValue};
use opentracing_rs::time::Timestamp;

fn at(secs: u64, nanos: u32) -> Timestamp {
    Timestamp::new(secs, nanos).unwrap()
}

fn state() -> SpanState {
    SpanState::new(TraceId { low: 1, high: 2 }, 3, true)
}

fn span_named(name: &str) -> (Span, UnboundedReceiver<FinishedSpan>) {
    let (sender, receiver) = unbounded();
    let span = Span::new(
        sender,
        name.to_string(),
        at(100, 0),
        vec![Tag::new("first", TagValue::from(true))],
        Vec::new(),
        state(),
        vec![BaggageItem::new("user", "ada")],
    );
    (span, receiver)
}

/// Everything that was queued, once all senders are gone.
fn drain(receiver: UnboundedReceiver<FinishedSpan>) -> Vec<FinishedSpan> {
    receiver.wait().map(|item| item.unwrap()).collect()
}

#[test]
fn a_new_span_is_active_and_holds_what_it_was_given() {
    let (span, _receiver) = span_named("load");
    assert!(span.is_active());
    assert!(!span.is_finished());
    assert_eq!(span.operation_name(), "load");
    assert_eq!(span.start_time(), at(100, 0));
    assert_eq!(span.tags().len(), 1);
    assert_eq!(span.tags()[0].name(), "first");
    let context = span.context();
    assert_eq!(context.state().span_id, 3);
    assert_eq!(context.state().trace_id, TraceId { low: 1, high: 2 });
    assert_eq!(context.state().parent_span_id, None);
    assert!(context.state().is_sampled);
    assert_eq!(context.baggage_items().len(), 1);
    assert_eq!(context.baggage_items()[0].key(), "user");
    assert_eq!(context.baggage_items()[0].value(), "ada");
}

#[test]
fn tags_are_appended_in_order() {
    let (mut span, _receiver) = span_named("load");
    span.set_tag(Tag::new("second", TagValue::text("2")));
    span.set_tag(Tag::new("third", TagValue::number_from_bits(3)));
    let names: Vec<&str> = span.tags().iter().map(|t| t.name()).collect();
    assert_eq!(names, vec!["first", "second", "third"]);
}

#[test]
fn an_active_span_can_be_renamed() {
    let (mut span, _receiver) = span_named("load");
    span.set_operation_name("store".to_string());
    assert_eq!(span.operation_name(), "store");
    assert_eq!(span.tags().len(), 1);
}

#[test]
fn finish_at_hands_the_record_on_once() {
    let (mut span, _receiver) = span_named("load");
    span.set_tag(Tag::new("second", TagValue::text("2")));
    let record = span.finish_at(at(101, 500)).unwrap();
    assert!(span.is_finished());
    assert!(!span.is_active());
    assert_eq!(record.operation_name(), "load");
    assert_eq!(record.start_time(), at(100, 0));
    assert_eq!(record.finish_time(), at(101, 500));
    assert_eq!(record.tags().len(), 2);
    assert_eq!(record.context().state().span_id, 3);
    assert_eq!(record.context().baggage_items()[0].key(), "user");
    assert!(record.references().is_empty());
    assert!(span.finish_at(at(102, 0)).is_none());
    assert!(span.finish_at(at(103, 0)).is_none());
    assert!(span.is_finished());
}

#[test]
fn duration_is_finish_minus_start() {
    let (mut span, _receiver) = span_named("load");
    let record = span.finish_at(at(101, 500)).unwrap();
    let d = record.duration();
    assert_eq!(d.secs(), 1);
    assert_eq!(d.subsec_nanos(), 500);
}

#[test]
fn duration_is_zero_when_the_clock_reads_before_the_start() {
    let (mut span, _receiver) = span_named("load");
    let record = span.finish_at(at(99, 0)).unwrap();
    assert_eq!(record.finish_time(), at(99, 0));
    assert_eq!(record.duration().secs(), 0);
    assert_eq!(record.duration().subsec_nanos(), 0);
}

#[test]
fn finish_twice_queues_one_entry() {
    let (mut span, receiver) = span_named("load");
    span.finish();
    assert!(span.is_finished());
    span.finish();
    span.finish();
    drop(span);
    let queued = drain(receiver);
    assert_eq!(queued.len(), 1);
    assert_eq!(queued[0].operation_name(), "load");
    assert!(!queued[0].finish_time().is_before(&queued[0].start_time()));
}

#[test]
fn a_span_that_is_not_finished_queues_nothing() {
    let (span, receiver) = span_named("load");
    drop(span);
    assert!(drain(receiver).is_empty());
}

#[test]
fn finish_after_finish_at_queues_nothing() {
    let (mut span, receiver) = span_named("load");
    let record = span.finish_at(at(101, 0));
    assert!(record.is_some());
    span.finish();
    drop(span);
    assert!(drain(receiver).is_empty());
}

#[test]
fn finish_without_a_receiver_does_no_harm() {
    let (mut span, receiver) = span_named("load");
    drop(receiver);
    span.finish();
    assert!(span.is_finished());
}

#[test]
fn a_finished_span_ignores_changes() {
    let (mut span, receiver) = span_named("load");
    span.finish();
    span.set_tag(Tag::new("late", TagValue::from(true)));
    span.set_operation_name("late".to_string());
    assert!(span.is_finished());
    drop(span);
    let queued = drain(receiver);
    assert_eq!(queued.len(), 1);
    assert_eq!(queued[0].operation_name(), "load");
    assert_eq!(queued[0].tags().len(), 1);
}

#[test]
fn spans_are_queued_in_the_order_in_which_they_finish() {
    let (sender, receiver) = unbounded();
    let mut spans: Vec<Span> = ["a", "b", "c"]
        .iter()
        .map(|name| {
            Span::new(
                sender.clone(),
                name.to_string(),
                at(1, 0),
                Vec::new(),
                Vec::new(),
                state(),
                Vec::new(),
            )
        })
        .collect();
    drop(sender);
    spans[2].finish();
    spans[0].finish();
    spans[1].finish();
    drop(spans);
    let names: Vec<String> =
        drain(receiver).iter().map(|s| s.operation_name().to_string()).collect();
    assert_eq!(names, vec!["c", "a", "b"]);
}

#[test]
fn a_record_can_be_copied() {
    let (sender, _receiver) = unbounded();
    let parent = state();
    let mut span = Span::new(
        sender,
        "load".to_string(),
        at(100, 0),
        vec![Tag::new("t", TagValue::text("v"))],
        vec![SpanReference::ChildOf(parent), SpanReference::FollowsFrom(parent)],
        SpanState::child(parent, 8),
        vec![BaggageItem::new("k", "v")],
    );
    let record = span.finish_at(at(100, 1)).unwrap();
    let copy = record.clone();
    assert_eq!(copy.operation_name(), "load");
    assert_eq!(copy.start_time(), record.start_time());
    assert_eq!(copy.finish_time(), record.finish_time());
    assert_eq!(copy.tags().len(), 1);
    assert_eq!(copy.tags()[0].name(), "t");
    assert_eq!(copy.references().len(), 2);
    assert!(matches!(copy.references()[0], SpanReference::ChildOf(s) if s.span_id == 3));
    assert!(matches!(copy.references()[1], SpanReference::FollowsFrom(s) if s.span_id == 3));
    assert_eq!(copy.context().state().span_id, 8);
    assert_eq!(copy.context().state().parent_span_id, Some(3));
    assert_eq!(copy.context().baggage_items()[0].value(), "v");
}

#[test]
fn context_and_baggage() {
    let context =
        SpanContext::new(7u32, vec![BaggageItem::new("a", "1"), BaggageItem::new("b", "2")]);
    assert_eq!(*context.state(), 7);
    assert_eq!(context.baggage_items().len(), 2);
    let copy = clone_baggage(context.baggage_items());
    assert_eq!(copy.len(), 2);
    assert_eq!(copy[0].key(), "a");
    assert_eq!(copy[0].value(), "1");
    assert_eq!(copy[1].key(), "b");
    assert_eq!(copy[1].value(), "2");
    let item = BaggageItem::new("k", "v").clone();
    assert_eq!(item.key(), "k");
    assert_eq!(item.value(), "v");
}

#[test]
fn span_state_of_root_and_child() {
    let root = SpanState::new(TraceId { low: 5, high: 6 }, 7, false);
    assert_eq!(root.trace_id, TraceId { low: 5, high: 6 });
    assert_eq!(root.span_id, 7);
    assert_eq!(root.parent_span_id, None);
    assert!(!root.is_sampled);
    let child = SpanState::child(root, 11);
    assert_eq!(child.trace_id, root.trace_id);
    assert_eq!(child.span_id, 11);
    assert_eq!(child.parent_span_id, Some(7));
    assert!(!child.is_sampled);
    let random_child = SpanState::from_parent(SpanState::new(TraceId { low: 5, high: 6 }, 7, true));
    assert_eq!(random_child.trace_id, TraceId { low: 5, high: 6 });
    assert_eq!(random_child.parent_span_id, Some(7));
    assert!(random_child.is_sampled);
    let other = SpanState::from_parent(root);
    assert!(other.span_id != random_child.span_id);
    let fresh = SpanState::default();
    assert_eq!(fresh.parent_span_id, None);
    assert!(!fresh.is_sampled);
}
