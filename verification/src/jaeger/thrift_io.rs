//! The codec of the Thrift library, and what is known of it.
//!
//! A codec is an output protocol that writes into a scratch buffer of a
//! fixed size. What it makes of a sequence of calls is its own matter and
//! has a name here, [`codec_answer`]; [`encode`] hands it the calls of a
//! plan, one by one and in turn, and says over that name what comes back.
//!
//! The compact protocol remembers how many structs are open and whether a
//! boolean field still waits for its value, and it stops the program when
//! it is called out of turn. A plan holds only calls that come in turn, so
//! that the program is never stopped.

use crate::jaeger::plan::{
    Call, FieldKind, MessageKind, Op, Plan, Turn, admits, calls_of, in_turn,
    lemma_beginnings_are_in_turn, turn_after,
};
use crate::jaeger::transport::{EncodeError, TransportProtocol};
use thrift::protocol::{
    TBinaryOutputProtocol, TCompactOutputProtocol, TFieldIdentifier, TListIdentifier,
    TMessageIdentifier, TMessageType, TOutputProtocol, TStructIdentifier, TType,
};
use thrift::transport::{ReadHalf, TBufferChannel, TIoChannel, WriteHalf};
use vstd::prelude::*;

verus! {

/// Trusted: the type `thrift::Error`, of which nothing is seen.
#[verifier::external_type_specification]
#[verifier::external_body]
pub struct ExThriftError(thrift::Error);

/// Trusted: the type `thrift::protocol::TType`, of which nothing is seen.
#[verifier::external_type_specification]
#[verifier::external_body]
pub struct ExTType(TType);

/// Trusted: the type `thrift::protocol::TMessageType`, of which nothing is
/// seen.
#[verifier::external_type_specification]
#[verifier::external_body]
pub struct ExTMessageType(TMessageType);

/// Trusted: `TBinaryOutputProtocol` over the writing half of a
/// `TBufferChannel`, together with the reading half of the same channel.
///
/// The Thrift library bounds its protocol types and the halves of a channel
/// by traits that cannot be named to the verifier, so these objects are kept
/// out of its sight in structs of this module.
#[verifier::external_body]
pub struct BinaryOut {
    inner: TBinaryOutputProtocol<WriteHalf<TBufferChannel>>,
    buffer: ReadHalf<TBufferChannel>,
}

/// Trusted: `TCompactOutputProtocol` over the writing half of a
/// `TBufferChannel`, together with the reading half of the same channel.
#[verifier::external_body]
pub struct CompactOut {
    inner: TCompactOutputProtocol<WriteHalf<TBufferChannel>>,
    buffer: ReadHalf<TBufferChannel>,
}

/// A codec in one of the two encodings.
pub enum Codec {
    Binary(BinaryOut),
    Compact(CompactOut),
}

/// The encoding of a codec.
pub open spec fn encoding(codec: Codec) -> TransportProtocol {
    match codec {
        Codec::Binary(_) => TransportProtocol::ThriftBinary,
        Codec::Compact(_) => TransportProtocol::ThriftCompact,
    }
}

/// The number of structs that were begun on a compact protocol and not yet
/// ended: the length of its stack of last field ids.
pub uninterp spec fn open_structs(compact: CompactOut) -> nat;

/// Whether a compact protocol holds the header of a boolean field back until
/// the value is written.
pub uninterp spec fn awaits_bool(compact: CompactOut) -> bool;

/// What the codec makes of a sequence of calls: whether the last of them was
/// taken and all before it, and the bytes that the buffer holds after them.
/// The codec is one of `protocol`, strict where it is binary, over a buffer
/// that was empty before the first call and takes up to `capacity` bytes.
pub uninterp spec fn codec_answer(
    protocol: TransportProtocol,
    capacity: usize,
    calls: Seq<Call>,
) -> (bool, Seq<u8>);

/// Whether a codec is in the state in which these calls, made one after the
/// other, leave a codec whose buffer takes up to `capacity` bytes and was
/// empty before the first of them.
pub uninterp spec fn reached(codec: Codec, capacity: usize, calls: Seq<Call>) -> bool;

/// What a call leaves of the state of the protocol: the same encoding, as
/// many open structs as `depth` says and a boolean field waiting as
/// `pending` says.
pub open spec fn leaves(before: Codec, after: Codec, depth: int, pending: bool) -> bool {
    match before {
        Codec::Binary(_) => after is Binary,
        Codec::Compact(_) => after matches Codec::Compact(c) && open_structs(c) == depth
            && awaits_bool(c) == pending,
    }
}

/// The state of the protocol as the compact encoding keeps it; the binary
/// encoding keeps none.
pub open spec fn depth_of(codec: Codec) -> int {
    match codec {
        Codec::Binary(_) => 0,
        Codec::Compact(c) => open_structs(c) as int,
    }
}

/// Whether a boolean field waits, which it does in the compact encoding
/// only.
pub open spec fn pending_of(codec: Codec) -> bool {
    match codec {
        Codec::Binary(_) => false,
        Codec::Compact(c) => awaits_bool(c),
    }
}

/// What one call does to a codec: whatever calls have brought the codec
/// where it is, it is now where the same calls and this one bring it; and
/// the call and all before it were taken exactly if all before it were
/// taken and the codec took this one.
pub open spec fn makes(before: Codec, after: Codec, call: Call, taken: bool) -> bool {
    forall|capacity: usize, calls: Seq<Call>| #[trigger]
        reached(before, capacity, calls) ==> {
            &&& reached(after, capacity, calls.push(call))
            &&& codec_answer(encoding(before), capacity, calls.push(call)).0 == (codec_answer(
                encoding(before),
                capacity,
                calls,
            ).0 && taken)
        }
}

/// What holds of a new codec: no call was made on it, and of no calls all
/// were taken.
pub open spec fn starts(codec: Codec, capacity: usize) -> bool {
    &&& reached(codec, capacity, Seq::empty())
    &&& codec_answer(encoding(codec), capacity, Seq::empty()).0
}

/// Trusted: `TBufferChannel::with_capacity`, `TIoChannel::split` and
/// `TBinaryOutputProtocol::new`: a binary protocol over a new buffer, kept
/// together with the handle that reads what it wrote. Each side of the
/// buffer is one allocation, which cannot be larger than `isize::MAX`; the
/// split of such a buffer never fails. The two halves are made and put
/// together in one place, so that a protocol is never paired with the
/// reading half of another buffer.
#[verifier::external_body]
fn binary_codec(read_capacity: usize, write_capacity: usize, strict: bool) -> (codec: Option<
    Codec,
>)
    requires
        read_capacity <= isize::MAX,
        write_capacity <= isize::MAX,
    ensures
        codec is Some,
        codec->0 is Binary,
        strict ==> starts(codec->0, write_capacity),
{
    let (read, write) = TBufferChannel::with_capacity(read_capacity, write_capacity).split().ok()?;
    let inner = TBinaryOutputProtocol::new(write, strict);
    Some(Codec::Binary(BinaryOut { inner, buffer: read }))
}

/// Trusted: `TBufferChannel::with_capacity`, `TIoChannel::split` and
/// `TCompactOutputProtocol::new`: a compact protocol over a new buffer,
/// which starts with no struct open and no boolean field waiting.
#[verifier::external_body]
fn compact_codec(read_capacity: usize, write_capacity: usize) -> (codec: Option<Codec>)
    requires
        read_capacity <= isize::MAX,
        write_capacity <= isize::MAX,
    ensures
        codec is Some,
        codec->0 is Compact,
        open_structs(codec->0->Compact_0) == 0,
        !awaits_bool(codec->0->Compact_0),
        starts(codec->0, write_capacity),
{
    let (read, write) = TBufferChannel::with_capacity(read_capacity, write_capacity).split().ok()?;
    let inner = TCompactOutputProtocol::new(write);
    Some(Codec::Compact(CompactOut { inner, buffer: read }))
}

/// Trusted: `TBufferChannel::write_bytes`, a copy of the bytes that the
/// buffer holds: those that the codec wrote for the calls so far.
#[verifier::external_body]
fn written_bytes(codec: &Codec) -> (bytes: Vec<u8>)
    ensures
        forall|capacity: usize, calls: Seq<Call>| #[trigger]
            reached(*codec, capacity, calls) ==> bytes@ == codec_answer(
                encoding(*codec),
                capacity,
                calls,
            ).1,
{
    match codec {
        Codec::Binary(b) => b.buffer.write_bytes(),
        Codec::Compact(c) => c.buffer.write_bytes(),
    }
}

/// Trusted: the variant of `TType` that stands for a kind.
#[verifier::external_body]
fn thrift_type(kind: FieldKind) -> (t: TType) {
    match kind {
        FieldKind::Bool => TType::Bool,
        FieldKind::I32 => TType::I32,
        FieldKind::I64 => TType::I64,
        FieldKind::Double => TType::Double,
        FieldKind::Text => TType::String,
        FieldKind::Struct => TType::Struct,
        FieldKind::List => TType::List,
    }
}

/// Trusted: the variant of `TMessageType` that stands for a kind.
#[verifier::external_body]
fn message_type(kind: MessageKind) -> (t: TMessageType) {
    match kind {
        MessageKind::Call => TMessageType::Call,
        MessageKind::Reply => TMessageType::Reply,
        MessageKind::Exception => TMessageType::Exception,
        MessageKind::OneWay => TMessageType::OneWay,
    }
}

/// Trusted: `TOutputProtocol::write_message_begin`. The count of
/// open structs and the waiting boolean stay as they are.
/// The codec is then where this call brings it, and the answer is
/// whether the codec took the call, as [`makes`] says.
#[verifier::external_body]
fn raw_message_begin(p: &mut Codec, name: &str, message: MessageKind, sequence_number: i32) -> (r:
    Result<(), thrift::Error>)
    ensures
        leaves(*old(p), *final(p), depth_of(*old(p)), pending_of(*old(p))),
        makes(
            *old(p),
            *final(p),
            Call::MessageBegin { name: name@, message, sequence_number },
            r is Ok,
        ),
{
    let ident = TMessageIdentifier::new(name, message_type(message), sequence_number);
    match p {
        Codec::Binary(b) => b.inner.write_message_begin(&ident),
        Codec::Compact(c) => c.inner.write_message_begin(&ident),
    }
}

/// Trusted: `TOutputProtocol::write_message_end`. The compact protocol stops
/// the program when a boolean field waits.
/// The codec is then where this call brings it, and the answer is
/// whether the codec took the call, as [`makes`] says.
#[verifier::external_body]
fn raw_message_end(p: &mut Codec) -> (r: Result<(), thrift::Error>)
    requires
        !pending_of(*old(p)),
    ensures
        leaves(*old(p), *final(p), depth_of(*old(p)), false),
        makes(*old(p), *final(p), Call::MessageEnd, r is Ok),
{
    match p {
        Codec::Binary(b) => b.inner.write_message_end(),
        Codec::Compact(c) => c.inner.write_message_end(),
    }
}

/// Trusted: `TOutputProtocol::write_struct_begin`. The compact protocol
/// opens one more struct.
/// The codec is then where this call brings it, and the answer is
/// whether the codec took the call, as [`makes`] says.
#[verifier::external_body]
fn raw_struct_begin(p: &mut Codec, name: &str) -> (r: Result<(), thrift::Error>)
    ensures
        leaves(*old(p), *final(p), depth_of(*old(p)) + 1, pending_of(*old(p))),
        makes(*old(p), *final(p), Call::StructBegin { name: name@ }, r is Ok),
{
    let ident = TStructIdentifier::new(name);
    match p {
        Codec::Binary(b) => b.inner.write_struct_begin(&ident),
        Codec::Compact(c) => c.inner.write_struct_begin(&ident),
    }
}

/// Trusted: `TOutputProtocol::write_struct_end`. The compact protocol stops
/// the program when no struct is open or a boolean field waits; else it
/// closes one struct.
/// The codec is then where this call brings it, and the answer is
/// whether the codec took the call, as [`makes`] says.
#[verifier::external_body]
fn raw_struct_end(p: &mut Codec) -> (r: Result<(), thrift::Error>)
    requires
        *old(p) is Compact ==> depth_of(*old(p)) > 0,
        !pending_of(*old(p)),
    ensures
        leaves(*old(p), *final(p), depth_of(*old(p)) - 1, false),
        makes(*old(p), *final(p), Call::StructEnd, r is Ok),
{
    match p {
        Codec::Binary(b) => b.inner.write_struct_end(),
        Codec::Compact(c) => c.inner.write_struct_end(),
    }
}

/// Trusted: `TOutputProtocol::write_field_begin` with a field id. The
/// compact protocol holds the header of a boolean field back, and stops the
/// program when one is held back already.
/// The codec is then where this call brings it, and the answer is
/// whether the codec took the call, as [`makes`] says.
#[verifier::external_body]
fn raw_field_begin(p: &mut Codec, name: &str, kind: FieldKind, id: i16) -> (r: Result<
    (),
    thrift::Error,
>)
    requires
        id > 0,
        !pending_of(*old(p)),
    ensures
        leaves(*old(p), *final(p), depth_of(*old(p)), kind == FieldKind::Bool),
        makes(*old(p), *final(p), Call::FieldBegin { name: name@, kind, id }, r is Ok),
{
    let ident = TFieldIdentifier::new(name, thrift_type(kind), id);
    match p {
        Codec::Binary(b) => b.inner.write_field_begin(&ident),
        Codec::Compact(c) => c.inner.write_field_begin(&ident),
    }
}

/// Trusted: `TOutputProtocol::write_field_end`. The compact protocol stops
/// the program when a boolean field waits.
/// The codec is then where this call brings it, and the answer is
/// whether the codec took the call, as [`makes`] says.
#[verifier::external_body]
fn raw_field_end(p: &mut Codec) -> (r: Result<(), thrift::Error>)
    requires
        !pending_of(*old(p)),
    ensures
        leaves(*old(p), *final(p), depth_of(*old(p)), false),
        makes(*old(p), *final(p), Call::FieldEnd, r is Ok),
{
    match p {
        Codec::Binary(b) => b.inner.write_field_end(),
        Codec::Compact(c) => c.inner.write_field_end(),
    }
}

/// Trusted: `TOutputProtocol::write_field_stop`. The compact protocol stops
/// the program when a boolean field waits.
/// The codec is then where this call brings it, and the answer is
/// whether the codec took the call, as [`makes`] says.
#[verifier::external_body]
fn raw_field_stop(p: &mut Codec) -> (r: Result<(), thrift::Error>)
    requires
        !pending_of(*old(p)),
    ensures
        leaves(*old(p), *final(p), depth_of(*old(p)), false),
        makes(*old(p), *final(p), Call::FieldStop, r is Ok),
{
    match p {
        Codec::Binary(b) => b.inner.write_field_stop(),
        Codec::Compact(c) => c.inner.write_field_stop(),
    }
}

/// Trusted: `TOutputProtocol::write_bool`. A boolean field that waited goes
/// out with the value.
/// The codec is then where this call brings it, and the answer is
/// whether the codec took the call, as [`makes`] says.
#[verifier::external_body]
fn raw_bool(p: &mut Codec, value: bool) -> (r: Result<(), thrift::Error>)
    ensures
        leaves(*old(p), *final(p), depth_of(*old(p)), false),
        makes(*old(p), *final(p), Call::Bool(value), r is Ok),
{
    match p {
        Codec::Binary(b) => b.inner.write_bool(value),
        Codec::Compact(c) => c.inner.write_bool(value),
    }
}

/// Trusted: `TOutputProtocol::write_byte`. The count of open structs and the
/// waiting boolean stay as they are.
/// The codec is then where this call brings it, and the answer is
/// whether the codec took the call, as [`makes`] says.
#[verifier::external_body]
fn raw_byte(p: &mut Codec, value: u8) -> (r: Result<(), thrift::Error>)
    ensures
        leaves(*old(p), *final(p), depth_of(*old(p)), pending_of(*old(p))),
        makes(*old(p), *final(p), Call::Byte(value), r is Ok),
{
    match p {
        Codec::Binary(b) => b.inner.write_byte(value),
        Codec::Compact(c) => c.inner.write_byte(value),
    }
}

/// Trusted: `TOutputProtocol::write_i32`. The count of open structs and the
/// waiting boolean stay as they are.
/// The codec is then where this call brings it, and the answer is
/// whether the codec took the call, as [`makes`] says.
#[verifier::external_body]
fn raw_i32(p: &mut Codec, value: i32) -> (r: Result<(), thrift::Error>)
    ensures
        leaves(*old(p), *final(p), depth_of(*old(p)), pending_of(*old(p))),
        makes(*old(p), *final(p), Call::I32(value), r is Ok),
{
    match p {
        Codec::Binary(b) => b.inner.write_i32(value),
        Codec::Compact(c) => c.inner.write_i32(value),
    }
}

/// Trusted: `TOutputProtocol::write_i64`. The count of open structs and the
/// waiting boolean stay as they are.
/// The codec is then where this call brings it, and the answer is
/// whether the codec took the call, as [`makes`] says.
#[verifier::external_body]
fn raw_i64(p: &mut Codec, value: i64) -> (r: Result<(), thrift::Error>)
    ensures
        leaves(*old(p), *final(p), depth_of(*old(p)), pending_of(*old(p))),
        makes(*old(p), *final(p), Call::I64(value), r is Ok),
{
    match p {
        Codec::Binary(b) => b.inner.write_i64(value),
        Codec::Compact(c) => c.inner.write_i64(value),
    }
}

/// Trusted: `TOutputProtocol::write_string`. The count of open structs and the
/// waiting boolean stay as they are.
/// The codec is then where this call brings it, and the answer is
/// whether the codec took the call, as [`makes`] says.
#[verifier::external_body]
fn raw_string(p: &mut Codec, value: &str) -> (r: Result<(), thrift::Error>)
    ensures
        leaves(*old(p), *final(p), depth_of(*old(p)), pending_of(*old(p))),
        makes(*old(p), *final(p), Call::Text(value@), r is Ok),
{
    match p {
        Codec::Binary(b) => b.inner.write_string(value),
        Codec::Compact(c) => c.inner.write_string(value),
    }
}

/// Trusted: `TOutputProtocol::write_bytes`. The count of open structs and the
/// waiting boolean stay as they are.
/// The codec is then where this call brings it, and the answer is
/// whether the codec took the call, as [`makes`] says.
#[verifier::external_body]
fn raw_bytes(p: &mut Codec, value: &[u8]) -> (r: Result<(), thrift::Error>)
    ensures
        leaves(*old(p), *final(p), depth_of(*old(p)), pending_of(*old(p))),
        makes(*old(p), *final(p), Call::Bytes(value@), r is Ok),
{
    match p {
        Codec::Binary(b) => b.inner.write_bytes(value),
        Codec::Compact(c) => c.inner.write_bytes(value),
    }
}

/// Trusted: `TOutputProtocol::write_list_begin`. The count of open structs
/// and the waiting boolean stay as they are.
/// The codec is then where this call brings it, and the answer is
/// whether the codec took the call, as [`makes`] says.
#[verifier::external_body]
fn raw_list_begin(p: &mut Codec, kind: FieldKind, size: i32) -> (r: Result<(), thrift::Error>)
    ensures
        leaves(*old(p), *final(p), depth_of(*old(p)), pending_of(*old(p))),
        makes(*old(p), *final(p), Call::ListBegin { kind, size }, r is Ok),
{
    let ident = TListIdentifier::new(thrift_type(kind), size);
    match p {
        Codec::Binary(b) => b.inner.write_list_begin(&ident),
        Codec::Compact(c) => c.inner.write_list_begin(&ident),
    }
}

/// Trusted: `TOutputProtocol::write_list_end`. The count of open structs
/// and the waiting boolean stay as they are.
/// The codec is then where this call brings it, and the answer is
/// whether the codec took the call, as [`makes`] says.
#[verifier::external_body]
fn raw_list_end(p: &mut Codec) -> (r: Result<(), thrift::Error>)
    ensures
        leaves(*old(p), *final(p), depth_of(*old(p)), pending_of(*old(p))),
        makes(*old(p), *final(p), Call::ListEnd, r is Ok),
{
    match p {
        Codec::Binary(b) => b.inner.write_list_end(),
        Codec::Compact(c) => c.inner.write_list_end(),
    }
}

/// Whether the codec keeps the count that a turn gives.
pub open spec fn stands_at(codec: Codec, turn: Turn) -> bool {
    codec is Compact ==> depth_of(codec) == turn.depth && pending_of(codec) == turn.pending
}

/// Makes one call on the codec.
fn perform(codec: &mut Codec, op: &Op, Ghost(turn): Ghost<Turn>) -> (taken: bool)
    requires
        stands_at(*old(codec), turn),
        admits(turn, op@),
    ensures
        stands_at(*final(codec), turn_after(turn, op@)),
        encoding(*final(codec)) == encoding(*old(codec)),
        makes(*old(codec), *final(codec), op@, taken),
{
    let outcome = match *op {
        Op::MessageBegin { name, message, sequence_number } => raw_message_begin(
            codec,
            name,
            message,
            sequence_number,
        ),
        Op::MessageEnd => raw_message_end(codec),
        Op::StructBegin { name } => raw_struct_begin(codec, name),
        Op::StructEnd => raw_struct_end(codec),
        Op::FieldBegin { name, kind, id } => raw_field_begin(codec, name, kind, id),
        Op::FieldEnd => raw_field_end(codec),
        Op::FieldStop => raw_field_stop(codec),
        Op::Bool(value) => raw_bool(codec, value),
        Op::Byte(value) => raw_byte(codec, value),
        Op::I32(value) => raw_i32(codec, value),
        Op::I64(value) => raw_i64(codec, value),
        Op::Text(value) => raw_string(codec, value),
        Op::Bytes(value) => raw_bytes(codec, value),
        Op::ListBegin { kind, size } => raw_list_begin(codec, kind, size),
        Op::ListEnd => raw_list_end(codec),
    };
    outcome.is_ok()
}

/// Whether the codec takes every one of the calls, made one after the
/// other.
pub open spec fn accepted_every(
    protocol: TransportProtocol,
    capacity: usize,
    calls: Seq<Call>,
) -> bool {
    forall|n: int|
        0 <= n <= calls.len() ==> (#[trigger] codec_answer(
            protocol,
            capacity,
            calls.subrange(0, n),
        )).0
}

/// What handing calls to a new codec gives: the bytes that the codec wrote
/// for them, where it took every call, and its refusal otherwise.
pub open spec fn written_for(
    protocol: TransportProtocol,
    capacity: usize,
    calls: Seq<Call>,
) -> Result<Seq<u8>, EncodeError> {
    if accepted_every(protocol, capacity, calls) {
        Ok(codec_answer(protocol, capacity, calls).1)
    } else {
        Err(EncodeError::Codec)
    }
}

/// The largest scratch buffer that can be had.
pub const LARGEST_SCRATCH: usize = isize::MAX as usize;

/// Hands the calls of a plan to a new codec of `protocol` over an empty
/// scratch buffer of `capacity` bytes, one by one, up to the first that the
/// codec refuses, and hands back what the buffer holds.
pub fn encode(protocol: TransportProtocol, capacity: usize, plan: &Plan) -> (written: Result<
    Vec<u8>,
    EncodeError,
>)
    requires
        plan.wf(),
        capacity <= LARGEST_SCRATCH,
    ensures
        match written {
            Ok(bytes) => written_for(protocol, capacity, plan.calls()) == Ok::<
                Seq<u8>,
                EncodeError,
            >(bytes@),
            Err(e) => written_for(protocol, capacity, plan.calls()) == Err::<
                Seq<u8>,
                EncodeError,
            >(e),
        },
{
    let mut codec = match protocol {
        TransportProtocol::ThriftBinary => binary_codec(0, capacity, true).unwrap(),
        TransportProtocol::ThriftCompact => compact_codec(0, capacity).unwrap(),
    };
    let ops = plan.ops();
    let ghost calls = plan.calls();
    proof {
        plan.lemma_in_turn();
        assert(calls.subrange(0, 0) =~= Seq::<Call>::empty());
    }
    let mut i: usize = 0;
    while i < ops.len()
        invariant
            i <= ops.len(),
            calls == calls_of(ops@),
            calls == plan.calls(),
            in_turn(calls) is Some,
            encoding(codec) == protocol,
            in_turn(calls.subrange(0, i as int)) is Some,
            stands_at(codec, in_turn(calls.subrange(0, i as int))->0),
            reached(codec, capacity, calls.subrange(0, i as int)),
            forall|n: int|
                0 <= n <= i ==> (#[trigger] codec_answer(
                    protocol,
                    capacity,
                    calls.subrange(0, n),
                )).0,
        decreases ops.len() - i,
    {
        let ghost before = calls.subrange(0, i as int);
        let ghost turn = in_turn(before)->0;
        proof {
            lemma_beginnings_are_in_turn(calls, i + 1);
            assert(calls.subrange(0, i + 1).drop_last() =~= before);
            assert(calls.subrange(0, i + 1).last() == ops[i as int]@);
            assert(before.push(ops[i as int]@) =~= calls.subrange(0, i + 1));
        }
        let taken = perform(&mut codec, &ops[i], Ghost(turn));
        if !taken {
            proof {
                assert(!codec_answer(protocol, capacity, calls.subrange(0, i + 1)).0);
                assert(!accepted_every(protocol, capacity, plan.calls()));
            }
            return Err(EncodeError::Codec);
        }
        proof {
            assert forall|n: int| 0 <= n <= i + 1 implies (#[trigger] codec_answer(
                protocol,
                capacity,
                calls.subrange(0, n),
            )).0 by {
                if n == i + 1 {
                } else {
                }
            }
        }
        i += 1;
    }
    proof {
        assert(calls.subrange(0, ops.len() as int) =~= calls);
    }
    Ok(written_bytes(&codec))
}

} // verus!
