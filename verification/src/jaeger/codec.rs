//! How the client's own records are put into those of the agent's schema.

use crate::jaeger::span::{FinishedSpan, SpanState};
use crate::jaeger::tracer::{Process, ProcessModel};
use crate::jaeger::transport::{BatchModel, SpanBatch};
use crate::jaeger::wire;
use crate::span::{FinishedModel, duration_nanos};
use crate::tag::{Tag, TagModel, TagValue, TagValueModel};
use crate::time::{NANOS_PER_MICRO, saturate_i64, total_micros, total_nanos};
use vstd::prelude::*;

verus! {

/// A tag on the wire: its name as the key, and its value in the one field
/// that its type names.
pub open spec fn tag_on_wire(tag: TagModel) -> wire::TagModel {
    let bare = wire::TagModel {
        key: tag.name,
        v_type: wire::TagType::String,
        v_str: None,
        v_double: None,
        v_bool: None,
        v_long: None,
        v_binary: None,
    };
    match tag.value {
        TagValueModel::String(text) => wire::TagModel { v_str: Some(text), ..bare },
        TagValueModel::Bool(flag) => wire::TagModel {
            v_type: wire::TagType::Bool,
            v_bool: Some(flag),
            ..bare
        },
        TagValueModel::Number(bits) => wire::TagModel {
            v_type: wire::TagType::Double,
            v_double: Some(bits),
            ..bare
        },
    }
}

/// Whatever a tag holds, on the wire it has its name as the key and exactly
/// the one value field that its type names: the string field for a string,
/// the boolean field for a boolean, the double field for a number.
pub proof fn lemma_tag_on_wire_holds_one_value(tag: TagModel)
    ensures
        tag_on_wire(tag).holds_one_value(),
        tag_on_wire(tag).key == tag.name,
        tag.value matches TagValueModel::String(text) ==> tag_on_wire(tag).v_str == Some(text),
        tag.value matches TagValueModel::Bool(flag) ==> tag_on_wire(tag).v_bool == Some(flag),
        tag.value matches TagValueModel::Number(bits) ==> tag_on_wire(tag).v_double == Some(bits),
{
}

/// The tags of a list on the wire, one for one.
pub open spec fn tags_on_wire(tags: Seq<TagModel>) -> Seq<wire::TagModel> {
    tags.map_values(|tag: TagModel| tag_on_wire(tag))
}

/// The signed 64-bit number with the same bits as `id`.
pub open spec fn as_signed(id: u64) -> i64 {
    if id <= i64::MAX as u64 {
        id as i64
    } else {
        (id - 0x1_0000_0000_0000_0000) as i64
    }
}

/// An identifier can be told from its signed form: the form is the
/// identifier itself where it is not negative, and the identifier less 2^64
/// where it is. So different identifiers have different signed forms.
pub proof fn lemma_signed_keeps_the_bits(id: u64, other: u64)
    ensures
        as_signed(id) >= 0 ==> as_signed(id) == id,
        as_signed(id) < 0 ==> as_signed(id) + 0x1_0000_0000_0000_0000 == id,
        as_signed(id) == as_signed(other) ==> id == other,
{
}

/// A finished span on the wire: its identifiers as signed numbers, zero for
/// the parent of a root, no flags, and its start and duration in whole
/// microseconds.
pub open spec fn span_on_wire(span: FinishedModel<SpanState>) -> wire::SpanModel {
    let state = span.span.context.state;
    wire::SpanModel {
        trace_id_low: as_signed(state.trace_id.low),
        trace_id_high: as_signed(state.trace_id.high),
        span_id: as_signed(state.span_id),
        parent_span_id: match state.parent_span_id {
            Some(parent) => as_signed(parent),
            None => 0,
        },
        operation_name: span.span.operation_name,
        flags: 0,
        start_time: saturate_i64(
            span.span.start_time.nanos_since_epoch() / (NANOS_PER_MICRO as int),
        ) as i64,
        duration: saturate_i64(duration_nanos(span) / (NANOS_PER_MICRO as int)) as i64,
    }
}

/// The spans of a list on the wire, one for one.
pub open spec fn spans_on_wire(spans: Seq<FinishedModel<SpanState>>) -> Seq<wire::SpanModel> {
    spans.map_values(|span: FinishedModel<SpanState>| span_on_wire(span))
}

/// A process on the wire: its name, and its tags, which are always present.
pub open spec fn process_on_wire(process: ProcessModel) -> wire::ProcessModel {
    wire::ProcessModel {
        service_name: process.service_name,
        tags: Some(tags_on_wire(process.tags)),
    }
}

/// A batch on the wire: its process and its spans, in their order.
pub open spec fn batch_on_wire(batch: BatchModel) -> wire::BatchModel {
    wire::BatchModel {
        process: process_on_wire(batch.process),
        spans: spans_on_wire(batch.spans),
    }
}

fn to_signed(id: u64) -> (signed: i64)
    ensures
        signed == as_signed(id),
{
    if id <= i64::MAX as u64 {
        id as i64
    } else {
        let above: u64 = id - 0x8000_0000_0000_0000;
        (above as i64) + i64::MIN
    }
}

/// Whole microseconds are the nanoseconds divided by a thousand, however
/// they are split into seconds and a rest.
pub proof fn lemma_micros_of_nanos(secs: u64, nanos: u32)
    ensures
        total_micros(secs, nanos) == total_nanos(secs, nanos) / (NANOS_PER_MICRO as int),
{
    let s = secs as int;
    let n = nanos as int;
    assert((s * 1_000_000_000 + n) / 1000 == s * 1_000_000 + n / 1000) by (nonlinear_arith)
        requires
            0 <= s,
            0 <= n,
    ;
}

/// The wire form of a tag that stays where it is.
pub fn tag_to_wire(tag: &Tag) -> (on_wire: wire::Tag)
    ensures
        on_wire.deep_view() == tag_on_wire(tag.deep_view()),
{
    let key = tag.name().to_owned();
    match tag.value() {
        TagValue::Bool(flag) => wire::Tag {
            key,
            v_type: wire::TagType::Bool,
            v_str: None,
            v_double: None,
            v_bool: Some(*flag),
            v_long: None,
            v_binary: None,
        },
        TagValue::String(text) => wire::Tag {
            key,
            v_type: wire::TagType::String,
            v_str: Some(text.clone()),
            v_double: None,
            v_bool: None,
            v_long: None,
            v_binary: None,
        },
        TagValue::Number(bits) => wire::Tag {
            key,
            v_type: wire::TagType::Double,
            v_str: None,
            v_double: Some(*bits),
            v_bool: None,
            v_long: None,
            v_binary: None,
        },
    }
}

/// The wire form of a finished span that stays where it is.
pub fn span_to_wire(span: &FinishedSpan) -> (on_wire: wire::Span)
    ensures
        on_wire.deep_view() == span_on_wire(span@),
{
    let state = *span.context().state();
    let started = span.start_time();
    let elapsed = span.duration();
    proof {
        lemma_micros_of_nanos(started.spec_secs(), started.spec_subsec_nanos());
        lemma_micros_of_nanos(elapsed.spec_secs(), elapsed.spec_subsec_nanos());
    }
    let start_time = started.wire_micros();
    let duration = elapsed.wire_micros();
    let parent_span_id = match state.parent_span_id {
        Some(parent) => to_signed(parent),
        None => 0,
    };
    wire::Span {
        trace_id_low: to_signed(state.trace_id.low),
        trace_id_high: to_signed(state.trace_id.high),
        span_id: to_signed(state.span_id),
        parent_span_id,
        operation_name: span.operation_name().to_owned(),
        flags: 0,
        start_time,
        duration,
    }
}

impl From<Tag> for wire::Tag {
    fn from(tag: Tag) -> (on_wire: Self)
        ensures
            on_wire.deep_view() == tag_on_wire(tag.deep_view()),
    {
        tag_to_wire(&tag)
    }
}

impl vstd::std_specs::convert::FromSpecImpl<Tag> for wire::Tag {
    open spec fn obeys_from_spec() -> bool {
        false
    }

    open spec fn from_spec(tag: Tag) -> wire::Tag {
        arbitrary()
    }
}

impl From<FinishedSpan> for wire::Span {
    fn from(span: FinishedSpan) -> (on_wire: Self)
        ensures
            on_wire.deep_view() == span_on_wire(span@),
    {
        span_to_wire(&span)
    }
}

impl vstd::std_specs::convert::FromSpecImpl<FinishedSpan> for wire::Span {
    open spec fn obeys_from_spec() -> bool {
        false
    }

    open spec fn from_spec(span: FinishedSpan) -> wire::Span {
        arbitrary()
    }
}

impl From<Process> for wire::Process {
    fn from(process: Process) -> (on_wire: Self)
        ensures
            on_wire.deep_view() == process_on_wire(process@),
    {
        let tags = process.tags();
        let mut wire_tags: Vec<wire::Tag> = Vec::with_capacity(tags.len());
        let mut i: usize = 0;
        while i < tags.len()
            invariant
                i <= tags.len(),
                wire_tags.len() == i,
                forall|j: int|
                    0 <= j < i ==> wire_tags[j].deep_view() == tag_on_wire(tags[j].deep_view()),
            decreases tags.len() - i,
        {
            wire_tags.push(tag_to_wire(&tags[i]));
            i += 1;
        }
        assert(wire_tags.deep_view() =~= tags_on_wire(tags.deep_view()));
        wire::Process { service_name: process.service_name().to_owned(), tags: Some(wire_tags) }
    }
}

impl vstd::std_specs::convert::FromSpecImpl<Process> for wire::Process {
    open spec fn obeys_from_spec() -> bool {
        false
    }

    open spec fn from_spec(process: Process) -> wire::Process {
        arbitrary()
    }
}

impl From<SpanBatch> for wire::Batch {
    fn from(batch: SpanBatch) -> (on_wire: Self)
        ensures
            on_wire.deep_view() == batch_on_wire(batch@),
    {
        let (process, spans) = batch.into_parts();
        let mut wire_spans: Vec<wire::Span> = Vec::with_capacity(spans.len());
        let mut i: usize = 0;
        while i < spans.len()
            invariant
                i <= spans.len(),
                wire_spans.len() == i,
                forall|j: int| 0 <= j < i ==> wire_spans[j].deep_view() == span_on_wire(spans[j]@),
            decreases spans.len() - i,
        {
            wire_spans.push(span_to_wire(&spans[i]));
            i += 1;
        }
        assert(wire_spans.deep_view() =~= spans_on_wire(spans@.map_values(|s: FinishedSpan| s@)));
        wire::Batch { process: wire::Process::from(process), spans: wire_spans }
    }
}

impl vstd::std_specs::convert::FromSpecImpl<SpanBatch> for wire::Batch {
    open spec fn obeys_from_spec() -> bool {
        false
    }

    open spec fn from_spec(batch: SpanBatch) -> wire::Batch {
        arbitrary()
    }
}

} // verus!
