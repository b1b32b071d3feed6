use futures::sync::mpsc::unbounded;
use opentracing_rs::jaeger::codec::{span_to_wire, tag_to_wire};
use opentracing_rs::jaeger::span::{FinishedSpan, Span, SpanState, TraceId};
use opentracing_rs::jaeger::tracer::Process;
use opentracing_rs::jaeger::transport::SpanBatch;
use opentracing_rs::jaeger::wire;
use opentracing_rs::tag::{Tag, TagValue};
use opentracing_rs::time::Timestamp;

fn at(secs: u64, nanos: u32) -> Timestamp {
    Timestamp::new(secs, nanos).unwrap()
}

fn finished(name: &str, state: SpanState, start: Timestamp, finish: Timestamp) -> FinishedSpan {
    let (sender, _receiver) = unbounded();
    let mut span = Span::new(
        sender,
        name.to_string(),
        start,
        vec![Tag::new("not.on.the.wire", TagValue::from(true))],
        Vec::new(),
        state,
        Vec::new(),
    );
    span.finish_at(finish).unwrap()
}

#[test]
fn a_string_tag_fills_the_string_field_only() {
    let t = wire::Tag::from(Tag::new("k", TagValue::text("v")));
    assert_eq!(t.key, "k");
    assert_eq!(t.v_type, wire::TagType::String);
    assert_eq!(t.v_str.as_deref(), Some("v"));
    assert_eq!(t.v_double, None);
    assert_eq!(t.v_bool, None);
    assert_eq!(t.v_long, None);
    assert_eq!(t.v_binary, None);
}

#[test]
fn a_bool_tag_fills_the_bool_field_only() {
    let t = wire::Tag::from(Tag::new("k", TagValue::from(false)));
    assert_eq!(t.key, "k");
    assert_eq!(t.v_type, wire::TagType::Bool);
    assert_eq!(t.v_str, None);
    assert_eq!(t.v_double, None);
    assert_eq!(t.v_bool, Some(false));
    assert_eq!(t.v_long, None);
    assert_eq!(t.v_binary, None);
}

#[test]
fn a_number_tag_fills_the_double_field_only() {
    let bits = 2.5f64.to_bits();
    let t = tag_to_wire(&Tag::new("k", TagValue::number_from_bits(bits)));
    assert_eq!(t.key, "k");
    assert_eq!(t.v_type, wire::TagType::Double);
    assert_eq!(t.v_str, None);
    assert_eq!(t.v_double, Some(bits));
    assert_eq!(t.v_bool, None);
    assert_eq!(t.v_long, None);
    assert_eq!(t.v_binary, None);
}

#[test]
fn tag_type_codes() {
    assert_eq!(wire::TagType::String.code(), 0);
    assert_eq!(wire::TagType::Double.code(), 1);
    assert_eq!(wire::TagType::Bool.code(), 2);
    assert_eq!(wire::TagType::Long.code(), 3);
    assert_eq!(wire::TagType::Binary.code(), 4);
}

#[test]
fn a_root_span_on_the_wire() {
    let state = SpanState::new(TraceId { low: 5, high: 6 }, 7, true);
    let s = wire::Span::from(finished("load", state, at(10, 1_500), at(12, 4_999)));
    assert_eq!(s.trace_id_low, 5);
    assert_eq!(s.trace_id_high, 6);
    assert_eq!(s.span_id, 7);
    assert_eq!(s.parent_span_id, 0);
    assert_eq!(s.operation_name, "load");
    assert_eq!(s.flags, 0);
    assert_eq!(s.start_time, 10_000_001);
    // 2 s and 3499 ns.
    assert_eq!(s.duration, 2_000_003);
}

#[test]
fn a_child_span_on_the_wire_names_its_parent() {
    let parent = SpanState::new(TraceId { low: 5, high: 6 }, 7, false);
    let s = span_to_wire(&finished("load", SpanState::child(parent, 9), at(10, 0), at(10, 999)));
    assert_eq!(s.span_id, 9);
    assert_eq!(s.parent_span_id, 7);
    assert_eq!(s.duration, 0);
}

#[test]
fn identifiers_keep_their_bits_as_signed_numbers() {
    let parent = SpanState::new(TraceId { low: u64::MAX, high: 1 << 63 }, u64::MAX - 1, true);
    let state = SpanState::child(parent, (1 << 63) + 5);
    let s = span_to_wire(&finished("load", state, at(1, 0), at(2, 0)));
    assert_eq!(s.trace_id_low, -1);
    assert_eq!(s.trace_id_high, i64::MIN);
    assert_eq!(s.span_id, i64::MIN + 5);
    assert_eq!(s.parent_span_id, -2);
    assert_eq!(s.trace_id_low as u64, u64::MAX);
    let small = span_to_wire(&finished(
        "load",
        SpanState::new(TraceId { low: i64::MAX as u64, high: 0 }, 1, true),
        at(1, 0),
        at(2, 0),
    ));
    assert_eq!(small.trace_id_low, i64::MAX);
    assert_eq!(small.trace_id_high, 0);
}

#[test]
fn times_before_the_start_give_no_duration() {
    let state = SpanState::new(TraceId { low: 5, high: 6 }, 7, true);
    let s = span_to_wire(&finished("load", state, at(10, 0), at(9, 0)));
    assert_eq!(s.start_time, 10_000_000);
    assert_eq!(s.duration, 0);
}

#[test]
fn a_process_on_the_wire_always_has_its_tags() {
    let p = wire::Process::from(Process::new("svc"));
    assert_eq!(p.service_name, "svc");
    let tags = p.tags.unwrap();
    assert_eq!(tags.len(), 1);
    assert_eq!(tags[0].key, "jaeger.version");
    assert_eq!(tags[0].v_str.as_deref(), Some("opentracing-rs-0.1.0"));

    let bare = wire::Process::from(Process::with_tags("svc", Vec::new()));
    assert_eq!(bare.tags.map(|t| t.len()), Some(0));
}

#[test]
fn a_process_collects_tags_in_order() {
    let mut process = Process::with_tags("svc", vec![Tag::new("a", TagValue::from(true))]);
    process.add_tag(Tag::new("b", TagValue::text("x")));
    assert_eq!(process.service_name(), "svc");
    assert_eq!(process.tags().len(), 2);
    let copy = process.clone();
    let p = wire::Process::from(copy);
    let keys: Vec<String> = p.tags.unwrap().into_iter().map(|t| t.key).collect();
    assert_eq!(keys, vec!["a", "b"]);
    assert_eq!(process.tags()[1].name(), "b");
}

#[test]
fn a_batch_on_the_wire_keeps_the_order_of_its_spans() {
    let state = SpanState::new(TraceId { low: 5, high: 6 }, 7, true);
    let spans = vec![
        finished("x", state, at(1, 0), at(2, 0)),
        finished("y", state, at(1, 0), at(3, 0)),
        finished("z", state, at(1, 0), at(4, 0)),
    ];
    let batch = SpanBatch::new(Process::new("svc"), spans);
    assert_eq!(batch.process().service_name(), "svc");
    assert_eq!(batch.spans().len(), 3);
    let b = wire::Batch::from(batch);
    assert_eq!(b.process.service_name, "svc");
    let names: Vec<&str> = b.spans.iter().map(|s| s.operation_name.as_str()).collect();
    assert_eq!(names, vec!["x", "y", "z"]);
    let durations: Vec<i64> = b.spans.iter().map(|s| s.duration).collect();
    assert_eq!(durations, vec![1_000_000, 2_000_000, 3_000_000]);

    let empty = wire::Batch::from(SpanBatch::new(Process::new("svc"), Vec::new()));
    assert!(empty.spans.is_empty());
}
