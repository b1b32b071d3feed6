//! The one-way call by which a batch goes to the agent, laid out record by
//! record as the agent's schema has it.

use crate::jaeger::plan::{Call, FieldKind, MessageKind, Op, Plan, byte_calls};
use crate::jaeger::transport::EncodeError;
use crate::jaeger::wire;
use vstd::prelude::*;

verus! {

/// The name of the call that carries a batch.
pub const EMIT_BATCH: &'static str = "emitBatch";

/// The eight bytes of a 64-bit pattern, most significant first.
pub open spec fn big_endian(bits: u64) -> Seq<u8> {
    seq![
        (bits >> 56) as u8,
        ((bits >> 48) & 0xff) as u8,
        ((bits >> 40) & 0xff) as u8,
        ((bits >> 32) & 0xff) as u8,
        ((bits >> 24) & 0xff) as u8,
        ((bits >> 16) & 0xff) as u8,
        ((bits >> 8) & 0xff) as u8,
        (bits & 0xff) as u8,
    ]
}

/// The eight bytes, put together again, are the pattern they were taken
/// from.
pub proof fn lemma_big_endian_keeps_the_bits(bits: u64)
    ensures
        big_endian(bits).len() == 8,
        (big_endian(bits)[0] as u64) << 56 | (big_endian(bits)[1] as u64) << 48 | (big_endian(
            bits,
        )[2] as u64) << 40 | (big_endian(bits)[3] as u64) << 32 | (big_endian(bits)[4] as u64) << 24
            | (big_endian(bits)[5] as u64) << 16 | (big_endian(bits)[6] as u64) << 8 | (big_endian(
            bits,
        )[7] as u64) == bits,
{
    assert(((bits >> 56) as u8 as u64) << 56 | (((bits >> 48) & 0xff) as u8 as u64) << 48 | (((bits
        >> 40) & 0xff) as u8 as u64) << 40 | (((bits >> 32) & 0xff) as u8 as u64) << 32 | (((bits
        >> 24) & 0xff) as u8 as u64) << 24 | (((bits >> 16) & 0xff) as u8 as u64) << 16 | (((bits
        >> 8) & 0xff) as u8 as u64) << 8 | ((bits & 0xff) as u8 as u64) == bits) by (bit_vector);
}

fn big_endian_bytes(bits: u64) -> (bytes: [u8; 8])
    ensures
        bytes@ == big_endian(bits),
{
    assert(bits >> 56 <= 0xff) by (bit_vector);
    assert((bits >> 48) & 0xff <= 0xff) by (bit_vector);
    assert((bits >> 40) & 0xff <= 0xff) by (bit_vector);
    assert((bits >> 32) & 0xff <= 0xff) by (bit_vector);
    assert((bits >> 24) & 0xff <= 0xff) by (bit_vector);
    assert((bits >> 16) & 0xff <= 0xff) by (bit_vector);
    assert((bits >> 8) & 0xff <= 0xff) by (bit_vector);
    assert(bits & 0xff <= 0xff) by (bit_vector);
    let bytes: [u8; 8] = [
        (bits >> 56) as u8,
        ((bits >> 48) & 0xff) as u8,
        ((bits >> 40) & 0xff) as u8,
        ((bits >> 32) & 0xff) as u8,
        ((bits >> 24) & 0xff) as u8,
        ((bits >> 16) & 0xff) as u8,
        ((bits >> 8) & 0xff) as u8,
        (bits & 0xff) as u8,
    ];
    assert(bytes@ =~= big_endian(bits));
    bytes
}

/// What planning a record leaves behind: the plan is sound, the calls of
/// the record stand behind those that were there, and no more is open than
/// before.
pub open spec fn planned(before: Plan, after: Plan, calls: Seq<Call>) -> bool {
    &&& after.wf()
    &&& after.calls() == before.calls() + calls
    &&& after.turn() == before.turn()
}

/// The calls that write one field: its header, its value, its end.
pub open spec fn field(name: Seq<char>, kind: FieldKind, id: i16, value: Seq<Call>) -> Seq<Call> {
    seq![Call::FieldBegin { name, kind, id }] + value + seq![Call::FieldEnd]
}

/// The calls that write the string of a tag as field 3, if it has one.
pub open spec fn string_part(tag: wire::TagModel) -> Seq<Call> {
    match tag.v_str {
        Some(text) => field("vStr"@, FieldKind::Text, 3, seq![Call::Text(text)]),
        None => Seq::empty(),
    }
}

/// The calls that write the number of a tag as field 4, if it has one: the
/// eight bytes of its bit pattern, most significant first.
pub open spec fn double_part(tag: wire::TagModel) -> Seq<Call> {
    match tag.v_double {
        Some(bits) => field("vDouble"@, FieldKind::Double, 4, byte_calls(big_endian(bits))),
        None => Seq::empty(),
    }
}

/// The calls that write the boolean of a tag as field 5, if it has one.
pub open spec fn bool_part(tag: wire::TagModel) -> Seq<Call> {
    match tag.v_bool {
        Some(flag) => field("vBool"@, FieldKind::Bool, 5, seq![Call::Bool(flag)]),
        None => Seq::empty(),
    }
}

/// The calls that write the whole number of a tag as field 6, if it has
/// one.
pub open spec fn long_part(tag: wire::TagModel) -> Seq<Call> {
    match tag.v_long {
        Some(number) => field("vLong"@, FieldKind::I64, 6, seq![Call::I64(number)]),
        None => Seq::empty(),
    }
}

/// The calls that write the bytes of a tag as field 7, if it has any.
pub open spec fn binary_part(tag: wire::TagModel) -> Seq<Call> {
    match tag.v_binary {
        Some(bytes) => field("vBinary"@, FieldKind::Text, 7, seq![Call::Bytes(bytes)]),
        None => Seq::empty(),
    }
}

/// The calls that write a tag: the key as field 1, the type as field 2,
/// then each value that is present, under the number that the schema gives
/// its field, and the stop.
pub open spec fn tag_calls(tag: wire::TagModel) -> Seq<Call> {
    seq![Call::StructBegin { name: "Tag"@ }] + field(
        "key"@,
        FieldKind::Text,
        1,
        seq![Call::Text(tag.key)],
    ) + field("vType"@, FieldKind::I32, 2, seq![Call::I32(tag.v_type.spec_code())])
        + string_part(tag) + double_part(tag) + bool_part(tag) + long_part(tag) + binary_part(tag)
        + seq![Call::FieldStop] + seq![Call::StructEnd]
}

/// The calls that write a span: the four identifiers as fields 1 to 4, the
/// name as field 5, the flags as field 7, start and duration as fields 8
/// and 9, and the stop. References, tags and logs are not written.
pub open spec fn span_calls(span: wire::SpanModel) -> Seq<Call> {
    seq![Call::StructBegin { name: "Span"@ }] + field(
        "traceIdLow"@,
        FieldKind::I64,
        1,
        seq![Call::I64(span.trace_id_low)],
    ) + field("traceIdHigh"@, FieldKind::I64, 2, seq![Call::I64(span.trace_id_high)]) + field(
        "spanId"@,
        FieldKind::I64,
        3,
        seq![Call::I64(span.span_id)],
    ) + field("parentSpanId"@, FieldKind::I64, 4, seq![Call::I64(span.parent_span_id)]) + field(
        "operationName"@,
        FieldKind::Text,
        5,
        seq![Call::Text(span.operation_name)],
    ) + field("flags"@, FieldKind::I32, 7, seq![Call::I32(span.flags)]) + field(
        "startTime"@,
        FieldKind::I64,
        8,
        seq![Call::I64(span.start_time)],
    ) + field("duration"@, FieldKind::I64, 9, seq![Call::I64(span.duration)])
        + seq![Call::FieldStop] + seq![Call::StructEnd]
}

/// The calls that write the tags of a list, one behind the other.
pub open spec fn each_tag(tags: Seq<wire::TagModel>) -> Seq<Call>
    decreases tags.len(),
{
    if tags.len() == 0 {
        Seq::empty()
    } else {
        each_tag(tags.drop_last()) + tag_calls(tags.last())
    }
}

/// The calls that write the spans of a list, one behind the other.
pub open spec fn each_span(spans: Seq<wire::SpanModel>) -> Seq<Call>
    decreases spans.len(),
{
    if spans.len() == 0 {
        Seq::empty()
    } else {
        each_span(spans.drop_last()) + span_calls(spans.last())
    }
}

/// The calls that write a list of structs: its size, its items, its end.
pub open spec fn list_of_structs(len: nat, items: Seq<Call>) -> Seq<Call> {
    seq![Call::ListBegin { kind: FieldKind::Struct, size: len as i32 }] + items
        + seq![Call::ListEnd]
}

/// The calls that write a process: the name of the service as field 1,
/// the list of its tags, where it has one, as field 2, and the stop.
pub open spec fn process_calls(process: wire::ProcessModel) -> Seq<Call> {
    seq![Call::StructBegin { name: "Process"@ }] + field(
        "serviceName"@,
        FieldKind::Text,
        1,
        seq![Call::Text(process.service_name)],
    ) + (match process.tags {
        Some(tags) => field(
            "tags"@,
            FieldKind::List,
            2,
            list_of_structs(tags.len(), each_tag(tags)),
        ),
        None => Seq::empty(),
    }) + seq![Call::FieldStop] + seq![Call::StructEnd]
}

/// The calls that write a batch: the process as field 1, the list of the
/// spans in their order as field 2, and the stop.
pub open spec fn batch_calls(batch: wire::BatchModel) -> Seq<Call> {
    seq![Call::StructBegin { name: "Batch"@ }] + field(
        "process"@,
        FieldKind::Struct,
        1,
        process_calls(batch.process),
    ) + field(
        "spans"@,
        FieldKind::List,
        2,
        list_of_structs(batch.spans.len(), each_span(batch.spans)),
    ) + seq![Call::FieldStop] + seq![Call::StructEnd]
}

/// The calls that write the whole message of one call to the agent: the
/// envelope of a one-way call named [`EMIT_BATCH`] with the sequence number,
/// the arguments with the batch as field 1, and the end of the message.
pub open spec fn emit_batch_calls(sequence_number: i32, batch: wire::BatchModel) -> Seq<Call> {
    seq![
        Call::MessageBegin { name: EMIT_BATCH@, message: MessageKind::OneWay, sequence_number },
    ]
        + seq![Call::StructBegin { name: "emitBatch_args"@ }] + field(
        "batch"@,
        FieldKind::Struct,
        1,
        batch_calls(batch),
    ) + seq![Call::FieldStop] + seq![Call::StructEnd] + seq![Call::MessageEnd]
}

/// The size of a list as the wire format counts it, which is up to the
/// largest signed 32-bit number.
pub fn list_size(len: usize) -> (size: Result<i32, EncodeError>)
    ensures
        size is Ok <==> len <= i32::MAX,
        size matches Ok(n) ==> n == len,
        size matches Err(e) ==> e == EncodeError::TooManyItems,
{
    if len <= i32::MAX as usize {
        Ok(len as i32)
    } else {
        Err(EncodeError::TooManyItems)
    }
}

fn plan_text_field<'a>(plan: &mut Plan<'a>, name: &'a str, id: i16, value: &'a str)
    requires
        old(plan).wf(),
        !old(plan).turn().pending,
        id > 0,
    ensures
        planned(
            *old(plan),
            *final(plan),
            field(name@, FieldKind::Text, id, seq![Call::Text(value@)]),
        ),
{
    plan.push(Op::FieldBegin { name, kind: FieldKind::Text, id });
    plan.push(Op::Text(value));
    plan.push(Op::FieldEnd);
    assert(plan.calls() =~= old(plan).calls() + field(
        name@,
        FieldKind::Text,
        id,
        seq![Call::Text(value@)],
    ));
}

fn plan_i32_field<'a>(plan: &mut Plan<'a>, name: &'a str, id: i16, value: i32)
    requires
        old(plan).wf(),
        !old(plan).turn().pending,
        id > 0,
    ensures
        planned(
            *old(plan),
            *final(plan),
            field(name@, FieldKind::I32, id, seq![Call::I32(value)]),
        ),
{
    plan.push(Op::FieldBegin { name, kind: FieldKind::I32, id });
    plan.push(Op::I32(value));
    plan.push(Op::FieldEnd);
    assert(plan.calls() =~= old(plan).calls() + field(
        name@,
        FieldKind::I32,
        id,
        seq![Call::I32(value)],
    ));
}

fn plan_i64_field<'a>(plan: &mut Plan<'a>, name: &'a str, id: i16, value: i64)
    requires
        old(plan).wf(),
        !old(plan).turn().pending,
        id > 0,
    ensures
        planned(
            *old(plan),
            *final(plan),
            field(name@, FieldKind::I64, id, seq![Call::I64(value)]),
        ),
{
    plan.push(Op::FieldBegin { name, kind: FieldKind::I64, id });
    plan.push(Op::I64(value));
    plan.push(Op::FieldEnd);
    assert(plan.calls() =~= old(plan).calls() + field(
        name@,
        FieldKind::I64,
        id,
        seq![Call::I64(value)],
    ));
}

fn plan_string_part<'a>(plan: &mut Plan<'a>, tag: &'a wire::Tag)
    requires
        old(plan).wf(),
        !old(plan).turn().pending,
    ensures
        planned(*old(plan), *final(plan), string_part(tag.deep_view())),
{
    match &tag.v_str {
        Some(text) => plan_text_field(plan, "vStr", 3, text.as_str()),
        None => {
            assert(plan.calls() =~= plan.calls() + Seq::<Call>::empty());
        },
    }
}

/// Plans a binary64 number, given by its bit pattern, as both encodings put
/// a double: its eight bytes, most significant first.
fn plan_double_part<'a>(plan: &mut Plan<'a>, tag: &'a wire::Tag)
    requires
        old(plan).wf(),
        !old(plan).turn().pending,
    ensures
        planned(*old(plan), *final(plan), double_part(tag.deep_view())),
{
    match tag.v_double {
        Some(bits) => {
            plan.push(Op::FieldBegin { name: "vDouble", kind: FieldKind::Double, id: 4 });
            let ghost begun = plan.calls();
            let bytes = big_endian_bytes(bits);
            let mut i: usize = 0;
            while i < 8
                invariant
                    i <= 8,
                    bytes@ == big_endian(bits),
                    plan.wf(),
                    plan.turn() == old(plan).turn(),
                    plan.calls() == begun + byte_calls(bytes@.subrange(0, i as int)),
                decreases 8 - i,
            {
                plan.push(Op::Byte(bytes[i]));
                assert(plan.calls() =~= begun + byte_calls(bytes@.subrange(0, i + 1)));
                i += 1;
            }
            assert(bytes@.subrange(0, 8) =~= bytes@);
            plan.push(Op::FieldEnd);
            assert(plan.calls() =~= old(plan).calls() + double_part(tag.deep_view()));
        },
        None => {
            assert(plan.calls() =~= plan.calls() + Seq::<Call>::empty());
        },
    }
}

fn plan_bool_part<'a>(plan: &mut Plan<'a>, tag: &'a wire::Tag)
    requires
        old(plan).wf(),
        !old(plan).turn().pending,
    ensures
        planned(*old(plan), *final(plan), bool_part(tag.deep_view())),
{
    match tag.v_bool {
        Some(flag) => {
            plan.push(Op::FieldBegin { name: "vBool", kind: FieldKind::Bool, id: 5 });
            plan.push(Op::Bool(flag));
            plan.push(Op::FieldEnd);
            assert(plan.calls() =~= old(plan).calls() + bool_part(tag.deep_view()));
        },
        None => {
            assert(plan.calls() =~= plan.calls() + Seq::<Call>::empty());
        },
    }
}

fn plan_long_part<'a>(plan: &mut Plan<'a>, tag: &'a wire::Tag)
    requires
        old(plan).wf(),
        !old(plan).turn().pending,
    ensures
        planned(*old(plan), *final(plan), long_part(tag.deep_view())),
{
    match tag.v_long {
        Some(number) => plan_i64_field(plan, "vLong", 6, number),
        None => {
            assert(plan.calls() =~= plan.calls() + Seq::<Call>::empty());
        },
    }
}

fn plan_binary_part<'a>(plan: &mut Plan<'a>, tag: &'a wire::Tag)
    requires
        old(plan).wf(),
        !old(plan).turn().pending,
    ensures
        planned(*old(plan), *final(plan), binary_part(tag.deep_view())),
{
    match &tag.v_binary {
        Some(bytes) => {
            plan.push(Op::FieldBegin { name: "vBinary", kind: FieldKind::Text, id: 7 });
            plan.push(Op::Bytes(bytes.as_slice()));
            plan.push(Op::FieldEnd);
            assert(plan.calls() =~= old(plan).calls() + binary_part(tag.deep_view()));
        },
        None => {
            assert(plan.calls() =~= plan.calls() + Seq::<Call>::empty());
        },
    }
}

/// Plans a tag: its key, its type, and the one value that is present.
pub fn plan_tag<'a>(plan: &mut Plan<'a>, tag: &'a wire::Tag)
    requires
        old(plan).wf(),
        !old(plan).turn().pending,
    ensures
        planned(*old(plan), *final(plan), tag_calls(tag.deep_view())),
{
    let ghost start = plan.calls();
    let ghost model = tag.deep_view();
    plan.push(Op::StructBegin { name: "Tag" });
    let ghost mut so_far = seq![Call::StructBegin { name: "Tag"@ }];
    assert(plan.calls() =~= start + so_far);
    plan_text_field(plan, "key", 1, tag.key.as_str());
    proof {
        so_far = so_far + field("key"@, FieldKind::Text, 1, seq![Call::Text(model.key)]);
        assert(plan.calls() =~= start + so_far);
    }
    plan_i32_field(plan, "vType", 2, tag.v_type.code());
    proof {
        so_far = so_far + field(
            "vType"@,
            FieldKind::I32,
            2,
            seq![Call::I32(model.v_type.spec_code())],
        );
        assert(plan.calls() =~= start + so_far);
    }
    plan_string_part(plan, tag);
    proof {
        so_far = so_far + string_part(model);
        assert(plan.calls() =~= start + so_far);
    }
    plan_double_part(plan, tag);
    proof {
        so_far = so_far + double_part(model);
        assert(plan.calls() =~= start + so_far);
    }
    plan_bool_part(plan, tag);
    proof {
        so_far = so_far + bool_part(model);
        assert(plan.calls() =~= start + so_far);
    }
    plan_long_part(plan, tag);
    proof {
        so_far = so_far + long_part(model);
        assert(plan.calls() =~= start + so_far);
    }
    plan_binary_part(plan, tag);
    proof {
        so_far = so_far + binary_part(model);
        assert(plan.calls() =~= start + so_far);
    }
    plan.push(Op::FieldStop);
    plan.push(Op::StructEnd);
    assert(plan.calls() =~= start + (so_far + seq![Call::FieldStop] + seq![Call::StructEnd]));
    assert(so_far + seq![Call::FieldStop] + seq![Call::StructEnd] == tag_calls(model));
}

/// Plans a span: its identifiers, its name, its flags and its times.
pub fn plan_span<'a>(plan: &mut Plan<'a>, span: &'a wire::Span)
    requires
        old(plan).wf(),
        !old(plan).turn().pending,
    ensures
        planned(*old(plan), *final(plan), span_calls(span.deep_view())),
{
    let ghost start = plan.calls();
    let ghost model = span.deep_view();
    plan.push(Op::StructBegin { name: "Span" });
    let ghost mut so_far = seq![Call::StructBegin { name: "Span"@ }];
    assert(plan.calls() =~= start + so_far);
    plan_i64_field(plan, "traceIdLow", 1, span.trace_id_low);
    proof {
        so_far = so_far + field(
            "traceIdLow"@,
            FieldKind::I64,
            1,
            seq![Call::I64(model.trace_id_low)],
        );
        assert(plan.calls() =~= start + so_far);
    }
    plan_i64_field(plan, "traceIdHigh", 2, span.trace_id_high);
    proof {
        so_far = so_far + field(
            "traceIdHigh"@,
            FieldKind::I64,
            2,
            seq![Call::I64(model.trace_id_high)],
        );
        assert(plan.calls() =~= start + so_far);
    }
    plan_i64_field(plan, "spanId", 3, span.span_id);
    proof {
        so_far = so_far + field("spanId"@, FieldKind::I64, 3, seq![Call::I64(model.span_id)]);
        assert(plan.calls() =~= start + so_far);
    }
    plan_i64_field(plan, "parentSpanId", 4, span.parent_span_id);
    proof {
        so_far = so_far + field(
            "parentSpanId"@,
            FieldKind::I64,
            4,
            seq![Call::I64(model.parent_span_id)],
        );
        assert(plan.calls() =~= start + so_far);
    }
    plan_text_field(plan, "operationName", 5, span.operation_name.as_str());
    proof {
        so_far = so_far + field(
            "operationName"@,
            FieldKind::Text,
            5,
            seq![Call::Text(model.operation_name)],
        );
        assert(plan.calls() =~= start + so_far);
    }
    plan_i32_field(plan, "flags", 7, span.flags);
    proof {
        so_far = so_far + field("flags"@, FieldKind::I32, 7, seq![Call::I32(model.flags)]);
        assert(plan.calls() =~= start + so_far);
    }
    plan_i64_field(plan, "startTime", 8, span.start_time);
    proof {
        so_far = so_far + field(
            "startTime"@,
            FieldKind::I64,
            8,
            seq![Call::I64(model.start_time)],
        );
        assert(plan.calls() =~= start + so_far);
    }
    plan_i64_field(plan, "duration", 9, span.duration);
    proof {
        so_far = so_far + field("duration"@, FieldKind::I64, 9, seq![Call::I64(model.duration)]);
        assert(plan.calls() =~= start + so_far);
    }
    plan.push(Op::FieldStop);
    plan.push(Op::StructEnd);
    assert(plan.calls() =~= start + (so_far + seq![Call::FieldStop] + seq![Call::StructEnd]));
    assert(so_far + seq![Call::FieldStop] + seq![Call::StructEnd] == span_calls(model));
}

/// Whether the lists of a batch are short enough for the wire format to
/// count them.
pub open spec fn countable(batch: wire::BatchModel) -> bool {
    &&& batch.spans.len() <= i32::MAX
    &&& batch.process.tags matches Some(tags) ==> tags.len() <= i32::MAX
}

/// Plans a process: its name and, where it has any, the list of its tags.
pub fn plan_process<'a>(plan: &mut Plan<'a>, process: &'a wire::Process)
    requires
        old(plan).wf(),
        !old(plan).turn().pending,
        process.tags matches Some(tags) ==> tags.len() <= i32::MAX,
    ensures
        planned(*old(plan), *final(plan), process_calls(process.deep_view())),
{
    let ghost start = plan.calls();
    let ghost model = process.deep_view();
    plan.push(Op::StructBegin { name: "Process" });
    let ghost mut so_far = seq![Call::StructBegin { name: "Process"@ }];
    assert(plan.calls() =~= start + so_far);
    plan_text_field(plan, "serviceName", 1, process.service_name.as_str());
    proof {
        so_far = so_far + field(
            "serviceName"@,
            FieldKind::Text,
            1,
            seq![Call::Text(model.service_name)],
        );
        assert(plan.calls() =~= start + so_far);
    }
    match &process.tags {
        Some(tags) => {
            let ghost before = plan.calls();
            let ghost listed = tags.deep_view();
            plan.push(Op::FieldBegin { name: "tags", kind: FieldKind::List, id: 2 });
            plan.push(Op::ListBegin { kind: FieldKind::Struct, size: tags.len() as i32 });
            let ghost head = plan.calls();
            let mut i: usize = 0;
            while i < tags.len()
                invariant
                    i <= tags.len(),
                    listed == tags.deep_view(),
                    plan.wf(),
                    plan.turn() == (crate::jaeger::plan::Turn {
                        depth: old(plan).turn().depth + 1,
                        pending: false,
                    }),
                    plan.calls() == head + each_tag(listed.subrange(0, i as int)),
                decreases tags.len() - i,
            {
                plan_tag(plan, &tags[i]);
                proof {
                    let longer = listed.subrange(0, i + 1);
                    assert(longer.drop_last() =~= listed.subrange(0, i as int));
                    assert(longer.last() == tags[i as int].deep_view());
                    assert(plan.calls() =~= head + each_tag(longer));
                }
                i += 1;
            }
            plan.push(Op::ListEnd);
            plan.push(Op::FieldEnd);
            proof {
                assert(listed.subrange(0, tags.len() as int) =~= listed);
                let part = field(
                    "tags"@,
                    FieldKind::List,
                    2,
                    list_of_structs(listed.len(), each_tag(listed)),
                );
                assert(plan.calls() =~= before + part);
                so_far = so_far + part;
            }
        },
        None => {
            proof {
                so_far = so_far + Seq::empty();
            }
        },
    }
    assert(plan.calls() =~= start + so_far);
    plan.push(Op::FieldStop);
    plan.push(Op::StructEnd);
    assert(plan.calls() =~= start + (so_far + seq![Call::FieldStop] + seq![Call::StructEnd]));
    assert(so_far + seq![Call::FieldStop] + seq![Call::StructEnd] == process_calls(model));
}

/// Plans a batch: its process, then the list of its spans in their order.
pub fn plan_batch<'a>(plan: &mut Plan<'a>, batch: &'a wire::Batch)
    requires
        old(plan).wf(),
        !old(plan).turn().pending,
        countable(batch.deep_view()),
    ensures
        planned(*old(plan), *final(plan), batch_calls(batch.deep_view())),
{
    let ghost start = plan.calls();
    let ghost model = batch.deep_view();
    let ghost listed = batch.spans.deep_view();
    plan.push(Op::StructBegin { name: "Batch" });
    let ghost mut so_far = seq![Call::StructBegin { name: "Batch"@ }];
    assert(plan.calls() =~= start + so_far);
    let ghost before = plan.calls();
    plan.push(Op::FieldBegin { name: "process", kind: FieldKind::Struct, id: 1 });
    plan_process(plan, &batch.process);
    plan.push(Op::FieldEnd);
    proof {
        let part = field("process"@, FieldKind::Struct, 1, process_calls(model.process));
        assert(plan.calls() =~= before + part);
        so_far = so_far + part;
        assert(plan.calls() =~= start + so_far);
    }
    let ghost before = plan.calls();
    plan.push(Op::FieldBegin { name: "spans", kind: FieldKind::List, id: 2 });
    plan.push(Op::ListBegin { kind: FieldKind::Struct, size: batch.spans.len() as i32 });
    let ghost head = plan.calls();
    let mut i: usize = 0;
    while i < batch.spans.len()
        invariant
            i <= batch.spans.len(),
            listed == batch.spans.deep_view(),
            plan.wf(),
            plan.turn() == (crate::jaeger::plan::Turn {
                depth: old(plan).turn().depth + 1,
                pending: false,
            }),
            plan.calls() == head + each_span(listed.subrange(0, i as int)),
        decreases batch.spans.len() - i,
    {
        plan_span(plan, &batch.spans[i]);
        proof {
            let longer = listed.subrange(0, i + 1);
            assert(longer.drop_last() =~= listed.subrange(0, i as int));
            assert(longer.last() == batch.spans[i as int].deep_view());
            assert(plan.calls() =~= head + each_span(longer));
        }
        i += 1;
    }
    plan.push(Op::ListEnd);
    plan.push(Op::FieldEnd);
    proof {
        assert(listed.subrange(0, batch.spans.len() as int) =~= listed);
        let part = field(
            "spans"@,
            FieldKind::List,
            2,
            list_of_structs(listed.len(), each_span(listed)),
        );
        assert(plan.calls() =~= before + part);
        so_far = so_far + part;
        assert(plan.calls() =~= start + so_far);
    }
    plan.push(Op::FieldStop);
    plan.push(Op::StructEnd);
    assert(plan.calls() =~= start + (so_far + seq![Call::FieldStop] + seq![Call::StructEnd]));
    assert(so_far + seq![Call::FieldStop] + seq![Call::StructEnd] == batch_calls(model));
}

/// Plans the whole message of one call: the envelope of a one-way call with
/// the sequence number, and the batch as the call's one argument.
pub fn plan_emit_batch<'a>(sequence_number: i32, batch: &'a wire::Batch) -> (plan: Plan<'a>)
    requires
        countable(batch.deep_view()),
    ensures
        plan.wf(),
        plan.calls() == emit_batch_calls(sequence_number, batch.deep_view()),
{
    let mut plan = Plan::new();
    plan.push(
        Op::MessageBegin { name: EMIT_BATCH, message: MessageKind::OneWay, sequence_number },
    );
    plan.push(Op::StructBegin { name: "emitBatch_args" });
    plan.push(Op::FieldBegin { name: "batch", kind: FieldKind::Struct, id: 1 });
    plan_batch(&mut plan, batch);
    plan.push(Op::FieldEnd);
    plan.push(Op::FieldStop);
    plan.push(Op::StructEnd);
    plan.push(Op::MessageEnd);
    assert(plan.calls() =~= emit_batch_calls(sequence_number, batch.deep_view()));
    plan
}

} // verus!
