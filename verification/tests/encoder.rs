use futures::sync::mpsc::unbounded;
use opentracing_rs::jaeger::span::{FinishedSpan, Span, SpanState, TraceId};
use opentracing_rs::jaeger::tracer::Process;
use opentracing_rs::jaeger::agent::list_size;
use opentracing_rs::jaeger::transport::{
    payload_of, scratch_capacity, EncodeError, SpanBatch, ThriftEncoder,
};
use opentracing_rs::tag::{Tag, TagValue};
use opentracing_rs::time::Timestamp;

fn at(secs: u64, nanos: u32) -> Timestamp {
    Timestamp::new(secs, nanos).unwrap()
}

fn finished(name: &str, span_id: u64, parent: Option<u64>) -> FinishedSpan {
    let (sender, _receiver) = unbounded();
    let root = SpanState::new(TraceId { low: 0x0102_0304_0506_0708, high: u64::MAX }, 1, true);
    let state = match parent {
        Some(_) => SpanState::child(root, span_id),
        None => SpanState::new(root.trace_id, span_id, true),
    };
    let mut span =
        Span::new(sender, name.to_string(), at(10, 0), Vec::new(), Vec::new(), state, Vec::new());
    span.finish_at(at(11, 2_000)).unwrap()
}

fn process() -> Process {
    Process::with_tags(
        "svc",
        vec![
            Tag::new("s", TagValue::text("text")),
            Tag::new("b", TagValue::from(true)),
            Tag::new("d", TagValue::number_from_bits(0.5f64.to_bits())),
        ],
    )
}

// The strict binary protocol, written out by hand.

fn put_i16(out: &mut Vec<u8>, v: i16) {
    out.extend_from_slice(&v.to_be_bytes());
}

fn put_i32(out: &mut Vec<u8>, v: i32) {
    out.extend_from_slice(&v.to_be_bytes());
}

fn put_i64(out: &mut Vec<u8>, v: i64) {
    out.extend_from_slice(&v.to_be_bytes());
}

fn put_field(out: &mut Vec<u8>, kind: u8, id: i16) {
    out.push(kind);
    put_i16(out, id);
}

fn put_string(out: &mut Vec<u8>, s: &str) {
    put_i32(out, s.len() as i32);
    out.extend_from_slice(s.as_bytes());
}

fn put_i64_field(out: &mut Vec<u8>, id: i16, v: i64) {
    put_field(out, 0x0A, id);
    put_i64(out, v);
}

fn put_tag_head(out: &mut Vec<u8>, key: &str, code: i32) {
    put_field(out, 0x0B, 1);
    put_string(out, key);
    put_field(out, 0x08, 2);
    put_i32(out, code);
}

fn put_span(out: &mut Vec<u8>, name: &str, span_id: i64, parent: i64) {
    put_i64_field(out, 1, 0x0102_0304_0506_0708);
    put_i64_field(out, 2, -1);
    put_i64_field(out, 3, span_id);
    put_i64_field(out, 4, parent);
    put_field(out, 0x0B, 5);
    put_string(out, name);
    put_field(out, 0x08, 7);
    put_i32(out, 0);
    put_i64_field(out, 8, 10_000_000);
    put_i64_field(out, 9, 1_000_002);
    out.push(0);
}

fn expected_binary(seq: i32, spans: &[(&str, i64, i64)]) -> Vec<u8> {
    let mut out = Vec::new();
    // Envelope: version 1, one-way call, name, sequence number.
    out.extend_from_slice(&[0x80, 0x01, 0x00, 0x04]);
    put_string(&mut out, "emitBatch");
    put_i32(&mut out, seq);
    // Arguments: field 1, the batch.
    put_field(&mut out, 0x0C, 1);
    // Batch: field 1, the process.
    put_field(&mut out, 0x0C, 1);
    put_field(&mut out, 0x0B, 1);
    put_string(&mut out, "svc");
    put_field(&mut out, 0x0F, 2);
    out.push(0x0C);
    put_i32(&mut out, 3);
    put_tag_head(&mut out, "s", 0);
    put_field(&mut out, 0x0B, 3);
    put_string(&mut out, "text");
    out.push(0);
    put_tag_head(&mut out, "b", 2);
    put_field(&mut out, 0x02, 5);
    out.push(1);
    out.push(0);
    put_tag_head(&mut out, "d", 1);
    put_field(&mut out, 0x04, 4);
    out.extend_from_slice(&0.5f64.to_be_bytes());
    out.push(0);
    out.push(0);
    // Batch: field 2, the spans.
    put_field(&mut out, 0x0F, 2);
    out.push(0x0C);
    put_i32(&mut out, spans.len() as i32);
    for (name, span_id, parent) in spans {
        put_span(&mut out, name, *span_id, *parent);
    }
    out.push(0);
    out.push(0);
    out
}

#[test]
fn encoders_start_at_sequence_number_zero() {
    assert_eq!(ThriftEncoder::binary_protocol(64).sequence_number(), 0);
    assert_eq!(ThriftEncoder::compact_protocol(64).sequence_number(), 0);
}

#[test]
fn binary_payload_of_a_batch() {
    let mut encoder = ThriftEncoder::binary_protocol(4096);
    let batch = SpanBatch::new(process(), vec![finished("x", 7, None), finished("y", 8, Some(1))]);
    let bytes = encoder.encode_span_batch(batch).unwrap();
    assert_eq!(bytes.to_vec(), expected_binary(1, &[("x", 7, 0), ("y", 8, 1)]));
    assert_eq!(encoder.sequence_number(), 1);
}

#[test]
fn sequence_numbers_rise_by_one_and_the_buffer_starts_empty_each_time() {
    let mut encoder = ThriftEncoder::binary_protocol(4096);
    for seq in 1..=5 {
        let batch = SpanBatch::new(process(), vec![finished("x", 7, None)]);
        let bytes = encoder.encode_span_batch(batch).unwrap();
        assert_eq!(bytes.to_vec(), expected_binary(seq, &[("x", 7, 0)]));
        assert_eq!(encoder.sequence_number(), seq);
    }
}

#[test]
fn an_empty_batch_can_be_encoded() {
    let mut encoder = ThriftEncoder::binary_protocol(4096);
    let bytes = encoder.encode_span_batch(SpanBatch::new(process(), Vec::new())).unwrap();
    assert_eq!(bytes.to_vec(), expected_binary(1, &[]));
}

#[test]
fn compact_payload_of_a_batch() {
    let mut encoder = ThriftEncoder::compact_protocol(4096);
    let batch = SpanBatch::new(
        Process::with_tags("svc", vec![Tag::new("b", TagValue::from(true))]),
        vec![finished("x", 7, None)],
    );
    let bytes = encoder.encode_span_batch(batch).unwrap();
    let mut expected: Vec<u8> = vec![
        0x82, // protocol id
        0x81, // one-way call, version 1
        0x02, // sequence number 1, zigzag
        0x09, // length of the name
    ];
    expected.extend_from_slice(b"emitBatch");
    expected.push(0x1C); // field 1, struct: the batch
    expected.push(0x1C); // field 1, struct: the process
    expected.extend_from_slice(&[0x18, 0x03]); // field 1, string of length 3
    expected.extend_from_slice(b"svc");
    expected.extend_from_slice(&[0x19, 0x1C]); // field 2, list of 1 struct
    expected.extend_from_slice(&[0x18, 0x01, b'b']); // key
    expected.extend_from_slice(&[0x15, 0x04]); // type: bool, zigzag of 2
    expected.push(0x31); // field 5 (delta 3), boolean true
    expected.push(0x00); // end of tag
    expected.push(0x00); // end of process
    expected.extend_from_slice(&[0x19, 0x1C]); // field 2, list of 1 struct
    expected.push(0x16); // field 1, i64: trace id low
    expected.extend_from_slice(&[0x90, 0x9C, 0xB0, 0xD0, 0x80, 0xC1, 0x81, 0x82, 0x02]);
    expected.extend_from_slice(&[0x16, 0x01]); // trace id high: -1
    expected.extend_from_slice(&[0x16, 0x0E]); // span id 7
    expected.extend_from_slice(&[0x16, 0x00]); // no parent
    expected.extend_from_slice(&[0x18, 0x01, b'x']); // operation name
    expected.extend_from_slice(&[0x25, 0x00]); // field 7 (delta 2), i32: flags
    expected.extend_from_slice(&[0x16, 0x80, 0xDA, 0xC4, 0x09]); // start: 10_000_000
    expected.extend_from_slice(&[0x16, 0x84, 0x89, 0x7A]); // duration: 1_000_002
    expected.push(0x00); // end of span
    expected.push(0x00); // end of batch
    expected.push(0x00); // end of arguments
    assert_eq!(bytes.to_vec(), expected);
    assert_eq!(encoder.sequence_number(), 1);
}

#[test]
fn a_batch_that_does_not_fit_the_buffer_is_refused() {
    let mut encoder = ThriftEncoder::binary_protocol(16);
    let batch = SpanBatch::new(process(), vec![finished("x", 7, None)]);
    assert_eq!(encoder.encode_span_batch(batch), Err(EncodeError::Codec));
    // The call has used up its number, and the next one starts afresh.
    assert_eq!(encoder.sequence_number(), 1);
    let mut roomy = ThriftEncoder::binary_protocol(4096);
    roomy.encode_span_batch(SpanBatch::new(process(), Vec::new())).unwrap();
    let batch = SpanBatch::new(process(), vec![finished("x", 7, None)]);
    let mut tight = ThriftEncoder::binary_protocol(16);
    assert!(tight.encode_span_batch(SpanBatch::new(process(), Vec::new())).is_err());
    assert_eq!(
        roomy.encode_span_batch(batch).unwrap().to_vec(),
        expected_binary(2, &[("x", 7, 0)])
    );
}

#[test]
fn payload_is_the_bytes_or_the_refusal() {
    assert_eq!(payload_of(Ok(vec![1, 2, 3]), 4), Ok(vec![1, 2, 3]));
    assert_eq!(payload_of(Ok(Vec::new()), 1), Ok(Vec::new()));
    assert_eq!(payload_of(Err(EncodeError::Codec), 4), Err(EncodeError::Codec));
    assert_eq!(payload_of(Err(EncodeError::TooManyItems), 4), Err(EncodeError::TooManyItems));
    assert_eq!(
        payload_of(Err(EncodeError::SequenceExhausted), 4),
        Err(EncodeError::SequenceExhausted)
    );
}

#[test]
fn a_payload_that_fills_the_buffer_exactly_is_handed_out() {
    assert_eq!(payload_of(Ok(vec![1, 2, 3]), 3), Ok(vec![1, 2, 3]));
    assert_eq!(payload_of(Ok(Vec::new()), 0), Ok(Vec::new()));
}

#[test]
fn a_payload_longer_than_the_buffer_is_refused() {
    assert_eq!(payload_of(Ok(vec![1, 2, 3]), 2), Err(EncodeError::BufferFull));
    assert_eq!(payload_of(Ok(vec![1]), 0), Err(EncodeError::BufferFull));
    assert_eq!(payload_of(Err(EncodeError::Codec), 0), Err(EncodeError::Codec));
}

#[test]
fn scratch_room_is_one_byte_more_than_the_buffer() {
    assert_eq!(scratch_capacity(0), 1);
    assert_eq!(scratch_capacity(4096), 4097);
    assert_eq!(scratch_capacity(isize::MAX as usize - 1), isize::MAX as usize);
    assert_eq!(scratch_capacity(isize::MAX as usize), isize::MAX as usize);
    assert_eq!(scratch_capacity(usize::MAX), isize::MAX as usize);
}

#[test]
fn the_compact_protocol_hands_out_whole_messages_only() {
    let whole = ThriftEncoder::compact_protocol(4096)
        .encode_span_batch(SpanBatch::new(process(), vec![finished("x", 7, None)]))
        .unwrap();
    for size in 0..whole.len() {
        let mut encoder = ThriftEncoder::compact_protocol(size);
        let batch = SpanBatch::new(process(), vec![finished("x", 7, None)]);
        assert!(encoder.encode_span_batch(batch).is_err(), "a buffer of {} bytes", size);
    }
    // A message that fills the buffer to the last byte is whole.
    for size in [whole.len(), whole.len() + 1, whole.len() + 100] {
        let mut encoder = ThriftEncoder::compact_protocol(size);
        let batch = SpanBatch::new(process(), vec![finished("x", 7, None)]);
        assert_eq!(encoder.encode_span_batch(batch), Ok(whole.clone()), "{} bytes", size);
    }
}

#[test]
fn the_binary_protocol_hands_out_whole_messages_only() {
    let whole = expected_binary(1, &[("x", 7, 0)]);
    for size in 0..whole.len() {
        let mut encoder = ThriftEncoder::binary_protocol(size);
        let batch = SpanBatch::new(process(), vec![finished("x", 7, None)]);
        assert!(encoder.encode_span_batch(batch).is_err(), "a buffer of {} bytes", size);
    }
    for size in [whole.len(), whole.len() + 1, whole.len() + 100] {
        let mut encoder = ThriftEncoder::binary_protocol(size);
        let batch = SpanBatch::new(process(), vec![finished("x", 7, None)]);
        assert_eq!(
            encoder.encode_span_batch(batch).map(|b| b.to_vec()),
            Ok(whole.clone()),
            "{} bytes",
            size
        );
    }
}

#[test]
fn a_message_one_byte_too_long_does_not_fit() {
    let whole = expected_binary(1, &[("x", 7, 0)]);
    let batch = SpanBatch::new(process(), vec![finished("x", 7, None)]);
    let mut encoder = ThriftEncoder::binary_protocol(whole.len() - 1);
    assert_eq!(encoder.encode_span_batch(batch), Err(EncodeError::BufferFull));
    let batch = SpanBatch::new(process(), vec![finished("x", 7, None)]);
    let mut encoder = ThriftEncoder::binary_protocol(whole.len() - 2);
    assert_eq!(encoder.encode_span_batch(batch), Err(EncodeError::Codec));
}

#[test]
fn the_last_sequence_number_is_used_and_then_none() {
    let mut encoder = ThriftEncoder::binary_protocol(4096).resume_after(i32::MAX - 1);
    let bytes = encoder.encode_span_batch(SpanBatch::new(process(), Vec::new())).unwrap();
    assert_eq!(bytes.to_vec(), expected_binary(i32::MAX, &[]));
    assert_eq!(encoder.sequence_number(), i32::MAX);
    for _ in 0..3 {
        assert_eq!(
            encoder.encode_span_batch(SpanBatch::new(process(), Vec::new())),
            Err(EncodeError::SequenceExhausted)
        );
        assert_eq!(encoder.sequence_number(), i32::MAX);
    }
}

#[test]
fn negative_sequence_numbers_rise_too() {
    let mut encoder = ThriftEncoder::compact_protocol(4096).resume_after(-2);
    assert_eq!(encoder.sequence_number(), -2);
    encoder.encode_span_batch(SpanBatch::new(process(), Vec::new())).unwrap();
    assert_eq!(encoder.sequence_number(), -1);
    encoder.encode_span_batch(SpanBatch::new(process(), Vec::new())).unwrap();
    assert_eq!(encoder.sequence_number(), 0);
}

#[test]
fn lists_are_counted_up_to_the_largest_signed_number() {
    assert_eq!(list_size(0), Ok(0));
    assert_eq!(list_size(3), Ok(3));
    assert_eq!(list_size(i32::MAX as usize), Ok(i32::MAX));
    assert_eq!(list_size(i32::MAX as usize + 1), Err(EncodeError::TooManyItems));
    assert_eq!(list_size(usize::MAX), Err(EncodeError::TooManyItems));
}
