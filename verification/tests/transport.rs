use bytes::Bytes;
use futures::sync::mpsc::{unbounded, UnboundedReceiver};
use futures::Stream;
use opentracing_rs::jaeger::span::{FinishedSpan, Span, SpanState, TraceId};
use opentracing_rs::jaeger::tracer::Process;
use opentracing_rs::jaeger::transport::{
    ThriftEncoder, Transport, TransportProtocol, UdpTransport, DEFAULT_ENCODING_BUFFER_SIZE,
    DEFAULT_FLUSH_INTERVAL_MILLIS, DEFAULT_SERVICE_NAME, DEFAULT_SPAN_BUFFER_SIZE,
};
use opentracing_rs::tag::{Tag, TagValue};
use opentracing_rs::time::Timestamp;

fn at(secs: u64, nanos: u32) -> Timestamp {
    Timestamp::new(secs, nanos).unwrap()
}

fn finished(name: &str) -> FinishedSpan {
    let (sender, _receiver) = unbounded();
    let state = SpanState::new(TraceId { low: 1, high: 2 }, 3, true);
    let mut span =
        Span::new(sender, name.to_string(), at(10, 0), Vec::new(), Vec::new(), state, Vec::new());
    span.finish_at(at(11, 0)).unwrap()
}

fn transport(capacity: usize) -> (UdpTransport, UnboundedReceiver<Bytes>) {
    UdpTransport::builder().process_service_name("svc").span_buffer_size(capacity).build_and_serve()
}

/// Everything that was queued for the network, once the transport is gone.
fn sent(transport: UdpTransport, outbound: UnboundedReceiver<Bytes>) -> Vec<Vec<u8>> {
    drop(transport);
    outbound.wait().map(|item| item.unwrap().to_vec()).collect()
}

fn contains(haystack: &[u8], needle: &[u8]) -> bool {
    haystack.windows(needle.len()).any(|w| w == needle)
}

/// Where the operation names stand in a binary payload, in their order.
fn names_in(payload: &[u8], names: &[&str]) -> Vec<usize> {
    names
        .iter()
        .map(|name| {
            let mut field = vec![0x0B, 0x00, 0x05];
            field.extend_from_slice(&(name.len() as i32).to_be_bytes());
            field.extend_from_slice(name.as_bytes());
            payload.windows(field.len()).position(|w| w == &field[..]).unwrap()
        })
        .collect()
}

fn span_count(payload: &[u8]) -> i32 {
    // The list of spans is field 2 of the batch: a list of structs.
    let head = [0x00, 0x0F, 0x00, 0x02, 0x0C];
    let at = payload.windows(head.len()).rposition(|w| w == head).unwrap() + head.len();
    i32::from_be_bytes([payload[at], payload[at + 1], payload[at + 2], payload[at + 3]])
}

#[test]
fn nothing_is_sent_while_the_buffer_is_more_than_one_short_of_its_capacity() {
    for capacity in [3usize, 4, 5, 17] {
        let (mut t, outbound) = transport(capacity);
        for i in 0..capacity - 2 {
            t.append(finished("s"));
            assert_eq!(t.pending_spans(), i + 1);
            assert_eq!(t.batches_encoded(), 0);
        }
        assert!(sent(t, outbound).is_empty());
    }
}

#[test]
fn the_append_that_leaves_one_slot_sends_one_batch_of_all_spans() {
    for capacity in [2usize, 3, 5, 17] {
        let (mut t, outbound) = transport(capacity);
        for _ in 0..capacity - 1 {
            assert_eq!(t.batches_encoded(), 0);
            t.append(finished("s"));
        }
        assert_eq!(t.pending_spans(), 0);
        assert_eq!(t.batches_encoded(), 1);
        assert_eq!(t.dropped_batches(), 0);
        let payloads = sent(t, outbound);
        assert_eq!(payloads.len(), 1);
        assert_eq!(span_count(&payloads[0]), capacity as i32 - 1);
    }
}

#[test]
fn capacity_four_sends_x_y_z_together() {
    let (mut t, outbound) = transport(4);
    t.append(finished("X"));
    assert_eq!((t.pending_spans(), t.batches_encoded()), (1, 0));
    t.append(finished("Y"));
    assert_eq!((t.pending_spans(), t.batches_encoded()), (2, 0));
    t.append(finished("Z"));
    assert_eq!((t.pending_spans(), t.batches_encoded()), (0, 1));
    let payloads = sent(t, outbound);
    assert_eq!(payloads.len(), 1);
    assert_eq!(span_count(&payloads[0]), 3);
    let places = names_in(&payloads[0], &["X", "Y", "Z"]);
    assert!(places[0] < places[1] && places[1] < places[2]);
}

#[test]
fn capacity_three_sends_x_and_y_together() {
    let (mut t, outbound) = transport(3);
    t.append(finished("X"));
    assert_eq!((t.pending_spans(), t.batches_encoded()), (1, 0));
    t.append(finished("Y"));
    assert_eq!((t.pending_spans(), t.batches_encoded()), (0, 1));
    t.append(finished("Z"));
    assert_eq!((t.pending_spans(), t.batches_encoded()), (1, 1));
    let payloads = sent(t, outbound);
    assert_eq!(payloads.len(), 1);
    assert_eq!(span_count(&payloads[0]), 2);
    let places = names_in(&payloads[0], &["X", "Y"]);
    assert!(places[0] < places[1]);
}

#[test]
fn the_buffer_fills_again_after_a_batch() {
    let (mut t, outbound) = transport(3);
    for name in ["a", "b", "c", "d", "e"] {
        t.append(finished(name));
    }
    assert_eq!(t.pending_spans(), 1);
    assert_eq!(t.batches_encoded(), 2);
    let payloads = sent(t, outbound);
    assert_eq!(payloads.len(), 2);
    let first = names_in(&payloads[0], &["a", "b"]);
    assert!(first[0] < first[1]);
    let second = names_in(&payloads[1], &["c", "d"]);
    assert!(second[0] < second[1]);
    // Each call has the next sequence number, behind the name in the envelope.
    assert_eq!(&payloads[0][17..21], &1i32.to_be_bytes());
    assert_eq!(&payloads[1][17..21], &2i32.to_be_bytes());
}

#[test]
fn flush_of_an_empty_buffer_sends_nothing() {
    let (mut t, outbound) = transport(3);
    t.flush();
    t.flush();
    assert_eq!(t.pending_spans(), 0);
    assert_eq!(t.batches_encoded(), 0);
    assert!(t.take_batch().is_none());
    assert!(sent(t, outbound).is_empty());
}

#[test]
fn flush_sends_what_is_there_and_only_once() {
    let (mut t, outbound) = transport(10);
    t.append(finished("a"));
    t.append(finished("b"));
    t.flush();
    assert_eq!(t.pending_spans(), 0);
    assert_eq!(t.batches_encoded(), 1);
    t.flush();
    assert_eq!(t.batches_encoded(), 1);
    let payloads = sent(t, outbound);
    assert_eq!(payloads.len(), 1);
    assert_eq!(span_count(&payloads[0]), 2);
}

#[test]
fn take_batch_hands_out_buffer_and_process() {
    let (mut t, _outbound) = transport(10);
    t.append(finished("a"));
    t.append(finished("b"));
    let batch = t.take_batch().unwrap();
    assert_eq!(t.pending_spans(), 0);
    assert_eq!(t.batches_encoded(), 0);
    assert_eq!(batch.process().service_name(), "svc");
    let names: Vec<&str> = batch.spans().iter().map(|s| s.operation_name()).collect();
    assert_eq!(names, vec!["a", "b"]);
    let (process, spans) = batch.into_parts();
    assert_eq!(process.tags().len(), 1);
    assert_eq!(spans.len(), 2);
    assert!(t.take_batch().is_none());
}

#[test]
fn a_batch_that_cannot_be_encoded_is_dropped_and_counted() {
    let (mut t, outbound) = UdpTransport::builder()
        .encoding_buffer_size(8)
        .span_buffer_size(3)
        .build_and_serve();
    t.append(finished("a"));
    t.append(finished("b"));
    assert_eq!(t.pending_spans(), 0);
    assert_eq!(t.batches_encoded(), 1);
    assert_eq!(t.dropped_batches(), 1);
    t.append(finished("c"));
    t.flush();
    assert_eq!(t.dropped_batches(), 2);
    assert!(sent(t, outbound).is_empty());
}

#[test]
fn a_transport_without_a_receiver_keeps_working() {
    let (mut t, outbound) = transport(3);
    drop(outbound);
    t.append(finished("a"));
    t.append(finished("b"));
    assert_eq!(t.pending_spans(), 0);
    assert_eq!(t.batches_encoded(), 1);
    assert!(!t.send_bytes(&[1, 2, 3]));
}

#[test]
fn send_bytes_queues_the_bytes_as_they_are() {
    let (mut t, outbound) = transport(2);
    assert!(t.send_bytes(&[1, 2, 3]));
    assert!(t.send_bytes(&[]));
    assert_eq!(sent(t, outbound), vec![vec![1u8, 2, 3], Vec::new()]);
}

#[test]
fn the_builder_has_defaults() {
    assert_eq!(DEFAULT_ENCODING_BUFFER_SIZE, 4096);
    assert_eq!(DEFAULT_SPAN_BUFFER_SIZE, 1000);
    assert_eq!(DEFAULT_FLUSH_INTERVAL_MILLIS, 500);
    assert_eq!(DEFAULT_SERVICE_NAME, "opentracing-rs_service");
    let (mut t, outbound) = UdpTransport::builder().build_and_serve();
    assert_eq!(t.span_capacity(), 1000);
    t.append(finished("a"));
    t.flush();
    let payloads = sent(t, outbound);
    assert_eq!(payloads.len(), 1);
    // Binary by default, with the default name and the version of the client.
    assert_eq!(&payloads[0][0..4], &[0x80, 0x01, 0x00, 0x04]);
    assert!(contains(&payloads[0], b"opentracing-rs_service"));
    assert!(contains(&payloads[0], b"jaeger.version"));
    assert!(contains(&payloads[0], b"opentracing-rs-0.1.0"));
}

#[test]
fn the_builder_takes_protocol_name_and_tags() {
    let (mut t, outbound) = UdpTransport::builder()
        .transport_protocol(TransportProtocol::ThriftCompact)
        .process_service_name("billing")
        .process_tags(vec![Tag::new("zone", TagValue::text("eu"))])
        .encoding_buffer_size(1024)
        .span_buffer_size(4)
        .build_and_serve();
    assert_eq!(t.span_capacity(), 4);
    t.append(finished("a"));
    t.flush();
    let payloads = sent(t, outbound);
    assert_eq!(payloads.len(), 1);
    assert_eq!(payloads[0][0], 0x82);
    assert!(contains(&payloads[0], b"billing"));
    let zone = payloads[0].windows(4).position(|w| w == b"zone").unwrap();
    let version = payloads[0].windows(14).position(|w| w == b"jaeger.version").unwrap();
    assert!(zone < version);
}

#[test]
fn a_transport_can_be_made_from_its_parts() {
    let (to_send, outbound) = unbounded();
    let mut t =
        UdpTransport::new(Process::new("parts"), to_send, ThriftEncoder::binary_protocol(512), 2);
    // With a capacity of two every span is a batch.
    t.append(finished("a"));
    assert_eq!((t.pending_spans(), t.batches_encoded()), (0, 1));
    t.append(finished("b"));
    assert_eq!((t.pending_spans(), t.batches_encoded()), (0, 2));
    let payloads = sent(t, outbound);
    assert_eq!(payloads.len(), 2);
    assert!(contains(&payloads[0], b"parts"));
    assert_eq!(span_count(&payloads[1]), 1);
    // And so it is with a capacity of one or none.
    for capacity in [0usize, 1] {
        let (to_send, outbound) = unbounded();
        let encoder = ThriftEncoder::binary_protocol(512);
        let mut t = UdpTransport::new(Process::new("parts"), to_send, encoder, capacity);
        t.append(finished("a"));
        t.append(finished("b"));
        assert_eq!((t.pending_spans(), t.batches_encoded()), (0, 2));
        assert_eq!(sent(t, outbound).len(), 2);
    }
}

#[test]
fn batches_are_dropped_when_the_sequence_numbers_have_run_out() {
    let (to_send, outbound) = unbounded();
    let encoder = ThriftEncoder::binary_protocol(4096).resume_after(i32::MAX - 1);
    let mut t = UdpTransport::new(Process::new("svc"), to_send, encoder, 3);
    for name in ["a", "b", "c", "d", "e", "f"] {
        t.append(finished(name));
    }
    assert_eq!(t.batches_encoded(), i32::MAX);
    assert_eq!(t.dropped_batches(), 2);
    assert_eq!(t.pending_spans(), 0);
    let payloads = sent(t, outbound);
    assert_eq!(payloads.len(), 1);
    let places = names_in(&payloads[0], &["a", "b"]);
    assert!(places[0] < places[1]);
}
