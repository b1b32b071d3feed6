//! The transport: finished spans are buffered, cut into batches, encoded and
//! queued for the network.

use crate::jaeger::agent::{countable, emit_batch_calls, plan_emit_batch};
use crate::jaeger::codec::batch_on_wire;
use crate::jaeger::payload::{copy_of, frozen, held};
use crate::jaeger::span::{FinishedSpan, SpanState};
use crate::jaeger::tag::{JAEGER_CLIENT_VERSION, JAEGER_CLIENT_VERSION_TAG_KEY};
use crate::jaeger::thrift_io::{LARGEST_SCRATCH, encode, written_for};
use crate::jaeger::tracer::{Process, ProcessModel, client_version_tag};
use crate::jaeger::wire;
use crate::queue::{enqueue, open_queue};
use crate::span::FinishedModel;
use crate::tag::{Tag, TagModel, TagValue};
use bytes::Bytes;
use futures::sync::mpsc::{UnboundedReceiver, UnboundedSender};
use std::sync::Arc;
use vstd::prelude::*;

verus! {

/// What a list of finished spans denotes, one for one.
pub open spec fn span_models(spans: Seq<FinishedSpan>) -> Seq<FinishedModel<SpanState>> {
    spans.map_values(|span: FinishedSpan| span@)
}

/// The spans that leave together, and the process that reports them.
pub struct SpanBatch {
    process: Process,
    spans: Vec<FinishedSpan>,
}

/// What a [`SpanBatch`] denotes.
pub ghost struct BatchModel {
    pub process: ProcessModel,
    pub spans: Seq<FinishedModel<SpanState>>,
}

impl View for SpanBatch {
    type V = BatchModel;

    closed spec fn view(&self) -> BatchModel {
        BatchModel { process: self.process@, spans: span_models(self.spans@) }
    }
}

impl SpanBatch {
    pub fn new(process: Process, spans: Vec<FinishedSpan>) -> (batch: Self)
        ensures
            batch@ == (BatchModel { process: process@, spans: span_models(spans@) }),
    {
        SpanBatch { process, spans }
    }

    pub fn process(&self) -> (process: &Process)
        ensures
            process@ == self@.process,
    {
        &self.process
    }

    pub fn spans(&self) -> (spans: &Vec<FinishedSpan>)
        ensures
            span_models(spans@) == self@.spans,
    {
        &self.spans
    }

    /// Takes the batch apart.
    pub fn into_parts(self) -> (parts: (Process, Vec<FinishedSpan>))
        ensures
            parts.0@ == self@.process,
            span_models(parts.1@) == self@.spans,
    {
        (self.process, self.spans)
    }
}

/// The encoding of the bytes that go to the agent.
#[derive(Debug, Clone, Copy, PartialEq, Eq, Structural)]
pub enum TransportProtocol {
    ThriftBinary,
    ThriftCompact,
}

/// Why a batch could not be encoded.
#[derive(Debug, Clone, Copy, PartialEq, Eq, Structural)]
pub enum EncodeError {
    /// Every sequence number has been used.
    SequenceExhausted,
    /// A list holds more items than the wire format can count.
    TooManyItems,
    /// The codec refused a call, as it does when its buffer is full.
    Codec,
    /// The message is longer than the scratch buffer.
    BufferFull,
}

/// The room that the codec is given for a message that may be up to
/// `buffer_size` bytes long: one byte more, where that can be had. A codec
/// that has filled its buffer may have dropped what came after without
/// refusing; with the one byte more, a message of up to `buffer_size` bytes
/// never fills the buffer, so that nothing of it was dropped.
pub open spec fn spec_scratch_capacity(buffer_size: usize) -> usize {
    if buffer_size < LARGEST_SCRATCH {
        (buffer_size + 1) as usize
    } else {
        LARGEST_SCRATCH
    }
}

#[verifier::when_used_as_spec(spec_scratch_capacity)]
pub fn scratch_capacity(buffer_size: usize) -> (capacity: usize)
    ensures
        capacity == spec_scratch_capacity(buffer_size),
        capacity <= LARGEST_SCRATCH,
{
    if buffer_size < LARGEST_SCRATCH {
        buffer_size + 1
    } else {
        LARGEST_SCRATCH
    }
}

/// The payload of a call, given what the codec wrote for it and the size
/// of the scratch buffer: the codec's refusal where it refused, and else the
/// bytes it wrote, as long as they are no more than the scratch buffer
/// holds.
pub open spec fn fitting(written: Result<Seq<u8>, EncodeError>, buffer_size: usize) -> Result<
    Seq<u8>,
    EncodeError,
> {
    match written {
        Ok(bytes) => if bytes.len() <= buffer_size {
            Ok(bytes)
        } else {
            Err(EncodeError::BufferFull)
        },
        Err(e) => Err(e),
    }
}

/// The payload of a call, given what the codec wrote for it and the size
/// of the scratch buffer.
pub fn payload_of(written: Result<Vec<u8>, EncodeError>, buffer_size: usize) -> (payload: Result<
    Vec<u8>,
    EncodeError,
>)
    ensures
        match payload {
            Ok(bytes) => written is Ok && fitting(Ok(written->Ok_0@), buffer_size) == Ok::<
                Seq<u8>,
                EncodeError,
            >(bytes@) && bytes == written->Ok_0,
            Err(e) => fitting(
                match written {
                    Ok(bytes) => Ok(bytes@),
                    Err(refusal) => Err(refusal),
                },
                buffer_size,
            ) == Err::<Seq<u8>, EncodeError>(e),
        },
{
    match written {
        Ok(bytes) => if bytes.len() <= buffer_size {
            Ok(bytes)
        } else {
            Err(EncodeError::BufferFull)
        },
        Err(e) => Err(e),
    }
}

/// What encoding a batch gives, with an encoder whose last sequence number
/// was `sequence_number`: nothing when the numbers have run out or a list of
/// the batch is too long to be counted; else what the codec writes for the
/// call with the next number, as long as it fits the scratch buffer.
pub open spec fn batch_payload(
    protocol: TransportProtocol,
    buffer_size: usize,
    sequence_number: i32,
    batch: BatchModel,
) -> Result<Seq<u8>, EncodeError> {
    if sequence_number == i32::MAX {
        Err(EncodeError::SequenceExhausted)
    } else if !countable(batch_on_wire(batch)) {
        Err(EncodeError::TooManyItems)
    } else {
        fitting(
            written_for(
                protocol,
                spec_scratch_capacity(buffer_size),
                emit_batch_calls((sequence_number + 1) as i32, batch_on_wire(batch)),
            ),
            buffer_size,
        )
    }
}

/// Whether a payload is the one that was to be: the same bytes, or the same
/// refusal.
pub open spec fn is_payload(
    payload: Result<Bytes, EncodeError>,
    expected: Result<Seq<u8>, EncodeError>,
) -> bool {
    match payload {
        Ok(bytes) => expected == Ok::<Seq<u8>, EncodeError>(held(bytes)),
        Err(e) => expected == Err::<Seq<u8>, EncodeError>(e),
    }
}

/// Turns batches into the bytes of one-way calls, each with a sequence
/// number of its own.
#[derive(Debug, Clone, Copy)]
pub struct ThriftEncoder {
    protocol: TransportProtocol,
    buffer_size: usize,
    seq_number: i32,
}

impl ThriftEncoder {
    /// The encoding that the encoder writes.
    pub closed spec fn protocol(&self) -> TransportProtocol {
        self.protocol
    }

    /// The size of the scratch buffer that a message has to fit into.
    pub closed spec fn buffer_size(&self) -> usize {
        self.buffer_size
    }

    /// The sequence number of the last call that was encoded, or zero.
    pub closed spec fn spec_sequence_number(&self) -> i32 {
        self.seq_number
    }

    pub fn binary_protocol(buffer_size: usize) -> (encoder: Self)
        ensures
            encoder.protocol() == TransportProtocol::ThriftBinary,
            encoder.buffer_size() == buffer_size,
            encoder.spec_sequence_number() == 0,
    {
        Self { protocol: TransportProtocol::ThriftBinary, buffer_size, seq_number: 0 }
    }

    pub fn compact_protocol(buffer_size: usize) -> (encoder: Self)
        ensures
            encoder.protocol() == TransportProtocol::ThriftCompact,
            encoder.buffer_size() == buffer_size,
            encoder.spec_sequence_number() == 0,
    {
        Self { protocol: TransportProtocol::ThriftCompact, buffer_size, seq_number: 0 }
    }

    /// The same encoder, but with `sequence_number` as the number of its
    /// last call, so that the next call takes the number after it.
    pub fn resume_after(self, sequence_number: i32) -> (encoder: Self)
        ensures
            encoder.protocol() == self.protocol(),
            encoder.buffer_size() == self.buffer_size(),
            encoder.spec_sequence_number() == sequence_number,
    {
        Self { protocol: self.protocol, buffer_size: self.buffer_size, seq_number: sequence_number }
    }

    #[verifier::when_used_as_spec(spec_sequence_number)]
    pub fn sequence_number(&self) -> (n: i32)
        ensures
            n == self.spec_sequence_number(),
    {
        self.seq_number
    }

    /// Encodes `batch` as the next call to the agent.
    ///
    /// Every call takes the next sequence number, whether the codec then
    /// writes the message or refuses; when the numbers have run out, nothing
    /// is encoded. The payload is what the codec writes for the call, and
    /// the codec's refusal where it refuses.
    pub fn encode_span_batch(&mut self, batch: SpanBatch) -> (payload: Result<Bytes, EncodeError>)
        ensures
            final(self).protocol() == old(self).protocol(),
            final(self).buffer_size() == old(self).buffer_size(),
            final(self).spec_sequence_number() == next_sequence_number(
                old(self).spec_sequence_number(),
            ),
            is_payload(
                payload,
                batch_payload(
                    old(self).protocol(),
                    old(self).buffer_size(),
                    old(self).spec_sequence_number(),
                    batch@,
                ),
            ),
    {
        if self.seq_number == i32::MAX {
            return Err(EncodeError::SequenceExhausted);
        }
        self.seq_number = self.seq_number + 1;
        let on_wire = wire::Batch::from(batch);
        if on_wire.spans.len() > i32::MAX as usize {
            return Err(EncodeError::TooManyItems);
        }
        match &on_wire.process.tags {
            Some(tags) => {
                if tags.len() > i32::MAX as usize {
                    return Err(EncodeError::TooManyItems);
                }
            },
            None => {},
        }
        let plan = plan_emit_batch(self.seq_number, &on_wire);
        let written = encode(self.protocol, scratch_capacity(self.buffer_size), &plan);
        match payload_of(written, self.buffer_size) {
            Ok(bytes) => Ok(frozen(bytes)),
            Err(e) => Err(e),
        }
    }
}

/// The sequence number after one more call: the next number, and the last
/// one again when there is no next.
pub open spec fn next_sequence_number(current: i32) -> i32 {
    if current < i32::MAX {
        (current + 1) as i32
    } else {
        current
    }
}

/// What appending a span does to a buffer with the given capacity: the
/// buffer it leaves, and the batch it cuts, if any. The span joins the
/// buffer, and when the buffer has then reached one span less than its
/// capacity says, all of them leave as one batch. With a capacity of two
/// or less every span leaves at once, as a batch of its own.
pub open spec fn after_append<M>(buffered: Seq<M>, capacity: nat, span: M) -> (
    Seq<M>,
    Option<Seq<M>>,
) {
    let filled = buffered.push(span);
    if filled.len() + 1 >= capacity {
        (Seq::empty(), Some(filled))
    } else {
        (filled, None)
    }
}

/// What flushing does to a buffer: nothing when it is empty, and else all
/// that it holds leaves as one batch.
pub open spec fn after_flush<M>(buffered: Seq<M>) -> (Seq<M>, Option<Seq<M>>) {
    if buffered.len() == 0 {
        (buffered, None)
    } else {
        (Seq::empty(), Some(buffered))
    }
}

/// What appending `spans` one after the other does: the buffer at the end,
/// and the batches that were cut on the way, oldest first.
pub open spec fn after_appends<M>(buffered: Seq<M>, capacity: nat, spans: Seq<M>) -> (
    Seq<M>,
    Seq<Seq<M>>,
)
    decreases spans.len(),
{
    if spans.len() == 0 {
        (buffered, Seq::empty())
    } else {
        let earlier = after_appends(buffered, capacity, spans.drop_last());
        let last = after_append(earlier.0, capacity, spans.last());
        match last.1 {
            Some(batch) => (last.0, earlier.1.push(batch)),
            None => (last.0, earlier.1),
        }
    }
}

/// As long as the buffer stays more than one span short of its capacity,
/// no batch is cut: an empty buffer then holds the spans in the order in
/// which they came.
pub proof fn lemma_no_batch_below_threshold<M>(capacity: nat, spans: Seq<M>)
    requires
        spans.len() + 1 < capacity,
    ensures
        after_appends(Seq::<M>::empty(), capacity, spans) == (spans, Seq::<Seq<M>>::empty()),
    decreases spans.len(),
{
    if spans.len() > 0 {
        lemma_no_batch_below_threshold(capacity, spans.drop_last());
        assert(spans.drop_last().push(spans.last()) =~= spans);
    } else {
        assert(spans =~= Seq::<M>::empty());
    }
}

/// With the append that brings an empty buffer to one span less than its
/// capacity, exactly one batch is cut: it holds all the spans, in the order
/// in which they came, and the buffer is empty again.
pub proof fn lemma_one_batch_at_threshold<M>(capacity: nat, spans: Seq<M>)
    requires
        capacity >= 2,
        spans.len() + 1 == capacity,
    ensures
        after_appends(Seq::<M>::empty(), capacity, spans) == (Seq::<M>::empty(), seq![spans]),
{
    lemma_no_batch_below_threshold(capacity, spans.drop_last());
    assert(spans.drop_last().push(spans.last()) =~= spans);
    assert(Seq::<Seq<M>>::empty().push(spans) =~= seq![spans]);
}

/// No span is lost, doubled or moved out of its place, however many are
/// appended: the batches that were cut, one behind the other, and behind
/// them what the buffer holds at the end, are what the buffer held at first
/// and behind it the spans in the order in which they came. Where the
/// buffer was more than one span short of its capacity at first, it is so
/// at the end, and every batch holds one span less than the capacity says.
pub proof fn lemma_appends_keep_every_span<M>(buffered: Seq<M>, capacity: nat, spans: Seq<M>)
    ensures
        ({
            let (left, batches) = after_appends(buffered, capacity, spans);
            &&& batches.flatten_alt() + left == buffered + spans
            &&& capacity >= 2 && buffered.len() + 1 < capacity ==> {
                &&& left.len() + 1 < capacity
                &&& forall|i: int|
                    0 <= i < batches.len() ==> (#[trigger] batches[i]).len() + 1 == capacity
            }
        }),
    decreases spans.len(),
{
    if spans.len() == 0 {
        assert(buffered + spans =~= buffered);
        assert(Seq::<Seq<M>>::empty().flatten_alt() + buffered =~= buffered);
    } else {
        lemma_appends_keep_every_span(buffered, capacity, spans.drop_last());
        let earlier = after_appends(buffered, capacity, spans.drop_last());
        let filled = earlier.0.push(spans.last());
        assert(spans.drop_last().push(spans.last()) =~= spans);
        assert((buffered + spans.drop_last()).push(spans.last()) =~= buffered + spans);
        if filled.len() + 1 >= capacity {
            let batches = earlier.1.push(filled);
            assert(batches.drop_last() =~= earlier.1);
            assert(batches.last() == filled);
            assert(batches.flatten_alt() + Seq::<M>::empty() =~= (earlier.1.flatten_alt()
                + earlier.0).push(spans.last()));
        } else {
            assert(earlier.1.flatten_alt() + filled =~= (earlier.1.flatten_alt() + earlier.0).push(
                spans.last(),
            ));
        }
    }
}

/// Flushing an empty buffer cuts no batch and leaves the buffer empty, and
/// so does a second flush right after a first.
pub proof fn lemma_flush_of_empty_is_idle<M>(buffered: Seq<M>)
    ensures
        after_flush(Seq::<M>::empty()) == (Seq::<M>::empty(), None::<Seq<M>>),
        after_flush(after_flush(buffered).0).1 is None,
        after_flush(after_flush(buffered).0).0 == after_flush(buffered).0,
{
}

/// The part of a reporting pipeline that takes finished spans in and sends
/// them on in batches.
///
/// A transport of this crate says what it holds. One written elsewhere
/// keeps the two functions below as they are, and that it buffers as this
/// trait lays down is taken on trust.
pub trait Transport {
    /// The batches that were cut so far, oldest first.
    open spec fn batches_cut(&self) -> Seq<Seq<FinishedModel<SpanState>>> {
        arbitrary::<spec_fn(&Self) -> Seq<Seq<FinishedModel<SpanState>>>>()(self)
    }

    /// The spans that wait for the next batch, oldest first.
    open spec fn buffered(&self) -> Seq<FinishedModel<SpanState>> {
        arbitrary::<spec_fn(&Self) -> Seq<FinishedModel<SpanState>>>()(self)
    }

    /// The capacity of the buffer, which a batch is cut one span short of.
    open spec fn capacity(&self) -> nat {
        arbitrary::<spec_fn(&Self) -> nat>()(self)
    }

    /// Takes a span in, and cuts a batch when the buffer has reached one
    /// span less than its capacity with it.
    fn append(&mut self, span: FinishedSpan)
        ensures
            final(self).buffered() == after_append(
                old(self).buffered(),
                old(self).capacity(),
                span@,
            ).0,
            final(self).batches_cut() == with_cut(
                old(self).batches_cut(),
                after_append(old(self).buffered(), old(self).capacity(), span@).1,
            ),
            final(self).capacity() == old(self).capacity(),
    ;

    /// Cuts a batch of what the buffer holds, if it holds anything.
    fn flush(&mut self)
        ensures
            final(self).buffered() == after_flush(old(self).buffered()).0,
            final(self).batches_cut() == with_cut(
                old(self).batches_cut(),
                after_flush(old(self).buffered()).1,
            ),
            final(self).capacity() == old(self).capacity(),
    ;
}

/// The batches that were cut, with one more where one was cut.
pub open spec fn with_cut<M>(so_far: Seq<Seq<M>>, cut: Option<Seq<M>>) -> Seq<Seq<M>> {
    match cut {
        Some(batch) => so_far.push(batch),
        None => so_far,
    }
}

/// The transport to a Jaeger agent: batches are encoded as Thrift calls and
/// queued for the task that owns the socket.
pub struct UdpTransport {
    process: Arc<Process>,
    to_send: UnboundedSender<Bytes>,
    span_buffer: Vec<FinishedSpan>,
    capacity: usize,
    encoder: ThriftEncoder,
    dropped: u64,
    handed: Ghost<Seq<Seq<u8>>>,
    cut: Ghost<Seq<Seq<FinishedModel<SpanState>>>>,
}

/// The count after one more dropped batch; it stays at the largest number.
pub open spec fn one_more(count: u64) -> u64 {
    if count < u64::MAX {
        (count + 1) as u64
    } else {
        count
    }
}

impl UdpTransport {
    /// After every operation the buffer is more than one span short of its
    /// capacity, or empty.
    #[verifier::type_invariant]
    spec fn well_formed(self) -> bool {
        self.span_buffer.len() == 0 || self.span_buffer.len() + 1 < self.capacity
    }

    /// The batches that were cut so far, oldest first.
    pub closed spec fn spec_batches_cut(&self) -> Seq<Seq<FinishedModel<SpanState>>> {
        self.cut@
    }

    /// The process that the batches are reported for.
    pub closed spec fn process(&self) -> ProcessModel {
        (*self.process)@
    }

    /// The encoder's state.
    pub closed spec fn encoder(&self) -> ThriftEncoder {
        self.encoder
    }

    /// The number of batches that were cut and could not be encoded.
    pub closed spec fn spec_dropped_batches(&self) -> u64 {
        self.dropped
    }

    /// The payloads that were handed to the outbound queue so far, oldest
    /// first, whether the other end of the queue was there to take them or
    /// not.
    pub closed spec fn handed_on(&self) -> Seq<Seq<u8>> {
        self.handed@
    }

    /// The spans that wait for the next batch, oldest first.
    pub closed spec fn spec_buffered(&self) -> Seq<FinishedModel<SpanState>> {
        span_models(self.span_buffer@)
    }

    /// The capacity of the buffer, which a batch is cut one span short of.
    pub closed spec fn spec_capacity(&self) -> usize {
        self.capacity
    }

    /// A transport with an empty buffer of the capacity `buffer_size`, which
    /// queues the encoded batches on `to_send`. A batch is cut when the
    /// buffer has reached one span less than its capacity; with a capacity of
    /// two or less that is at every span.
    pub fn new(
        process: Process,
        to_send: UnboundedSender<Bytes>,
        encoder: ThriftEncoder,
        buffer_size: usize,
    ) -> (transport: Self)
        ensures
            transport.process() == process@,
            transport.encoder() == encoder,
            transport.spec_capacity() == buffer_size,
            transport.spec_buffered() == Seq::<FinishedModel<SpanState>>::empty(),
            transport.spec_dropped_batches() == 0,
            transport.handed_on() == Seq::<Seq<u8>>::empty(),
            transport.spec_batches_cut() == Seq::<Seq<FinishedModel<SpanState>>>::empty(),
    {
        let transport = Self {
            process: Arc::new(process),
            encoder,
            to_send,
            span_buffer: Vec::new(),
            capacity: buffer_size,
            dropped: 0,
            handed: Ghost(Seq::empty()),
            cut: Ghost(Seq::empty()),
        };
        assert(transport.spec_buffered() =~= Seq::<FinishedModel<SpanState>>::empty());
        transport
    }

    pub fn builder() -> (builder: UdpTransportBuilder)
        ensures
            builder@ == default_settings(),
    {
        UdpTransportBuilder::default()
    }

    /// The number of spans that wait for the next batch.
    pub fn pending_spans(&self) -> (n: usize)
        ensures
            n == self.spec_buffered().len(),
    {
        self.span_buffer.len()
    }

    #[verifier::when_used_as_spec(spec_capacity)]
    pub fn span_capacity(&self) -> (n: usize)
        ensures
            n == self.spec_capacity(),
    {
        self.capacity
    }

    /// The sequence number of the last batch that was handed to the encoder:
    /// with an encoder that started at zero, the number of batches that were
    /// cut so far, as long as the sequence numbers last.
    pub fn batches_encoded(&self) -> (n: i32)
        ensures
            n == self.encoder().spec_sequence_number(),
    {
        self.encoder.sequence_number()
    }

    #[verifier::when_used_as_spec(spec_dropped_batches)]
    pub fn dropped_batches(&self) -> (n: u64)
        ensures
            n == self.spec_dropped_batches(),
    {
        self.dropped
    }

    /// Hands a copy of `data` to the outbound queue. The answer is whether
    /// the queue took it, which it does as long as its other end is there.
    pub fn send_bytes(&mut self, data: &[u8]) -> (queued: bool)
        ensures
            final(self).process() == old(self).process(),
            final(self).encoder() == old(self).encoder(),
            final(self).spec_capacity() == old(self).spec_capacity(),
            final(self).spec_buffered() == old(self).spec_buffered(),
            final(self).spec_dropped_batches() == old(self).spec_dropped_batches(),
            final(self).spec_batches_cut() == old(self).spec_batches_cut(),
            final(self).handed_on() == old(self).handed_on().push(data@),
    {
        proof {
            use_type_invariant(&*self);
        }
        let payload = copy_of(data);
        let queued = enqueue(&self.to_send, payload);
        proof {
            self.handed@ = self.handed@.push(data@);
        }
        queued
    }

    /// Cuts a batch from the buffer: all the spans it holds, with the
    /// process, or nothing when it holds none.
    pub fn take_batch(&mut self) -> (batch: Option<SpanBatch>)
        ensures
            final(self).process() == old(self).process(),
            final(self).encoder() == old(self).encoder(),
            final(self).spec_capacity() == old(self).spec_capacity(),
            final(self).spec_dropped_batches() == old(self).spec_dropped_batches(),
            final(self).handed_on() == old(self).handed_on(),
            final(self).spec_batches_cut() == with_cut(
                old(self).spec_batches_cut(),
                after_flush(old(self).spec_buffered()).1,
            ),
            final(self).spec_buffered() == after_flush(old(self).spec_buffered()).0,
            match batch {
                Some(cut) => after_flush(old(self).spec_buffered()).1 == Some(cut@.spans)
                    && cut@.process == old(self).process(),
                None => after_flush(old(self).spec_buffered()).1 is None,
            },
    {
        if self.span_buffer.len() == 0 {
            assert(self.spec_buffered() =~= Seq::<FinishedModel<SpanState>>::empty());
            return None;
        }
        let mut spans: Vec<FinishedSpan> = Vec::new();
        std::mem::swap(&mut spans, &mut self.span_buffer);
        proof {
            self.cut@ = self.cut@.push(span_models(spans@));
        }
        assert(self.spec_buffered() =~= Seq::<FinishedModel<SpanState>>::empty());
        Some(SpanBatch::new((*self.process).clone(), spans))
    }

    /// Encodes a batch and hands the bytes to the outbound queue; a batch
    /// that cannot be encoded is dropped and counted.
    fn emit(&mut self, batch: SpanBatch)
        ensures
            final(self).process() == old(self).process(),
            final(self).spec_capacity() == old(self).spec_capacity(),
            final(self).spec_buffered() == old(self).spec_buffered(),
            final(self).spec_batches_cut() == old(self).spec_batches_cut(),
            final(self).encoder().protocol() == old(self).encoder().protocol(),
            final(self).encoder().buffer_size() == old(self).encoder().buffer_size(),
            final(self).encoder().spec_sequence_number() == next_sequence_number(
                old(self).encoder().spec_sequence_number(),
            ),
            sent_or_dropped(*old(self), *final(self), batch@),
    {
        proof {
            use_type_invariant(&*self);
        }
        let mut encoder = self.encoder;
        let payload = encoder.encode_span_batch(batch);
        self.encoder = encoder;
        match payload {
            Ok(bytes) => {
                let ghost payload = held(bytes);
                let _queued = enqueue(&self.to_send, bytes);
                proof {
                    self.handed@ = self.handed@.push(payload);
                }
            },
            Err(_) => {
                if self.dropped < u64::MAX {
                    self.dropped = self.dropped + 1;
                }
            },
        }
    }
}

/// What becomes of a batch that was cut: where the encoder gives a payload
/// for it, that payload is handed to the outbound queue and nothing is
/// dropped; where the encoder gives none, nothing is handed on and the
/// batch is counted as dropped.
pub open spec fn sent_or_dropped(
    before: UdpTransport,
    after: UdpTransport,
    batch: BatchModel,
) -> bool {
    match batch_payload(
        before.encoder().protocol(),
        before.encoder().buffer_size(),
        before.encoder().spec_sequence_number(),
        batch,
    ) {
        Ok(bytes) => {
            &&& after.handed_on() == before.handed_on().push(bytes)
            &&& after.spec_dropped_batches() == before.spec_dropped_batches()
        },
        Err(_) => {
            &&& after.handed_on() == before.handed_on()
            &&& after.spec_dropped_batches() == one_more(before.spec_dropped_batches())
        },
    }
}

/// What a transport is after a batch was or was not cut from it. A batch
/// that was cut goes to the encoder with the transport's process, and the
/// encoder moves on by one call; its payload is handed to the outbound
/// queue, and where it gives none the batch is counted as dropped. Where no
/// batch was cut, nothing is encoded, handed on or dropped.
pub open spec fn settled_after(
    before: UdpTransport,
    after: UdpTransport,
    cut: Option<Seq<FinishedModel<SpanState>>>,
) -> bool {
    &&& after.process() == before.process()
    &&& after.spec_capacity() == before.spec_capacity()
    &&& after.encoder().protocol() == before.encoder().protocol()
    &&& after.encoder().buffer_size() == before.encoder().buffer_size()
    &&& match cut {
        Some(spans) => {
            &&& after.encoder().spec_sequence_number() == next_sequence_number(
                before.encoder().spec_sequence_number(),
            )
            &&& sent_or_dropped(before, after, BatchModel { process: before.process(), spans })
        },
        None => {
            &&& after.encoder().spec_sequence_number() == before.encoder().spec_sequence_number()
            &&& after.spec_dropped_batches() == before.spec_dropped_batches()
            &&& after.handed_on() == before.handed_on()
        },
    }
}

impl Transport for UdpTransport {
    open spec fn batches_cut(&self) -> Seq<Seq<FinishedModel<SpanState>>> {
        self.spec_batches_cut()
    }

    open spec fn buffered(&self) -> Seq<FinishedModel<SpanState>> {
        self.spec_buffered()
    }

    open spec fn capacity(&self) -> nat {
        self.spec_capacity() as nat
    }

    fn append(&mut self, span: FinishedSpan)
        ensures
            settled_after(
                *old(self),
                *final(self),
                after_append(old(self).buffered(), old(self).capacity(), span@).1,
            ),
    {
        proof {
            use_type_invariant(&*self);
        }
        let ghost before = self.spec_buffered();
        let mut spans: Vec<FinishedSpan> = Vec::new();
        std::mem::swap(&mut spans, &mut self.span_buffer);
        spans.push(span);
        assert(span_models(spans@) =~= before.push(span@));
        if self.capacity > 0 && spans.len() < self.capacity - 1 {
            self.span_buffer = spans;
        } else {
            assert(self.spec_buffered() =~= Seq::<FinishedModel<SpanState>>::empty());
            proof {
                self.cut@ = self.cut@.push(span_models(spans@));
            }
            let batch = SpanBatch::new((*self.process).clone(), spans);
            self.emit(batch);
        }
    }

    fn flush(&mut self)
        ensures
            settled_after(*old(self), *final(self), after_flush(old(self).buffered()).1),
    {
        match self.take_batch() {
            Some(batch) => {
                self.emit(batch);
            },
            None => {},
        }
    }
}

/// The settings of a [`UdpTransportBuilder`].
pub ghost struct TransportSettings {
    pub transport_protocol: Option<TransportProtocol>,
    pub service_name: Option<Seq<char>>,
    pub encoding_buffer_size: usize,
    pub span_buffer_size: usize,
    pub tags: Option<Seq<TagModel>>,
}

/// The size of the encoder's scratch buffer where none is set.
pub const DEFAULT_ENCODING_BUFFER_SIZE: usize = 4096;

/// The capacity of the span buffer where none is set.
pub const DEFAULT_SPAN_BUFFER_SIZE: usize = 1000;

/// The time between two flushes by the clock where none is set, in
/// milliseconds.
pub const DEFAULT_FLUSH_INTERVAL_MILLIS: u64 = 500;

/// The name of the service where none is set.
pub const DEFAULT_SERVICE_NAME: &'static str = "opentracing-rs_service";

/// The settings before any was changed.
pub open spec fn default_settings() -> TransportSettings {
    TransportSettings {
        transport_protocol: None,
        service_name: None,
        encoding_buffer_size: DEFAULT_ENCODING_BUFFER_SIZE,
        span_buffer_size: DEFAULT_SPAN_BUFFER_SIZE,
        tags: None,
    }
}

/// The process that a transport built from `settings` reports for: the
/// service name that was set, or the default one; the tags that were set,
/// and behind them the tag with the client's version.
pub open spec fn process_of(settings: TransportSettings) -> ProcessModel {
    ProcessModel {
        service_name: match settings.service_name {
            Some(name) => name,
            None => DEFAULT_SERVICE_NAME@,
        },
        tags: match settings.tags {
            Some(tags) => tags.push(client_version_tag()),
            None => seq![client_version_tag()],
        },
    }
}

/// The encoding that a transport built from `settings` writes: the one
/// that was set, or the binary one.
pub open spec fn protocol_of(settings: TransportSettings) -> TransportProtocol {
    match settings.transport_protocol {
        Some(protocol) => protocol,
        None => TransportProtocol::ThriftBinary,
    }
}

/// Collects the settings of a [`UdpTransport`].
pub struct UdpTransportBuilder {
    transport_protocol: Option<TransportProtocol>,
    service_name: Option<String>,
    encoding_buffer_size: usize,
    span_buffer_size: usize,
    tags: Option<Vec<Tag>>,
}

impl View for UdpTransportBuilder {
    type V = TransportSettings;

    closed spec fn view(&self) -> TransportSettings {
        TransportSettings {
            transport_protocol: self.transport_protocol,
            service_name: match self.service_name {
                Some(name) => Some(name@),
                None => None,
            },
            encoding_buffer_size: self.encoding_buffer_size,
            span_buffer_size: self.span_buffer_size,
            tags: match self.tags {
                Some(tags) => Some(tags.deep_view()),
                None => None,
            },
        }
    }
}

impl Default for UdpTransportBuilder {
    fn default() -> (builder: Self)
        ensures
            builder@ == default_settings(),
    {
        Self {
            transport_protocol: None,
            service_name: None,
            encoding_buffer_size: DEFAULT_ENCODING_BUFFER_SIZE,
            span_buffer_size: DEFAULT_SPAN_BUFFER_SIZE,
            tags: None,
        }
    }
}

impl UdpTransportBuilder {
    pub fn transport_protocol(self, protocol: TransportProtocol) -> (builder: Self)
        ensures
            builder@ == (TransportSettings { transport_protocol: Some(protocol), ..self@ }),
    {
        let mut builder = self;
        builder.transport_protocol = Some(protocol);
        builder
    }

    pub fn process_service_name(self, service_name: &str) -> (builder: Self)
        ensures
            builder@ == (TransportSettings { service_name: Some(service_name@), ..self@ }),
    {
        let mut builder = self;
        builder.service_name = Some(service_name.to_owned());
        builder
    }

    pub fn process_tags(self, tags: Vec<Tag>) -> (builder: Self)
        ensures
            builder@ == (TransportSettings { tags: Some(tags.deep_view()), ..self@ }),
    {
        let mut builder = self;
        builder.tags = Some(tags);
        builder
    }

    pub fn encoding_buffer_size(self, buffer_size: usize) -> (builder: Self)
        ensures
            builder@ == (TransportSettings { encoding_buffer_size: buffer_size, ..self@ }),
    {
        let mut builder = self;
        builder.encoding_buffer_size = buffer_size;
        builder
    }

    /// Sets the capacity of the span buffer, which has to be more than one.
    /// A batch is cut one span short of it.
    pub fn span_buffer_size(self, buffer_size: usize) -> (builder: Self)
        requires
            buffer_size > 1,
        ensures
            builder@ == (TransportSettings { span_buffer_size: buffer_size, ..self@ }),
    {
        let mut builder = self;
        builder.span_buffer_size = buffer_size;
        builder
    }

    /// Builds the transport, and with it the receiving half of the queue
    /// that it puts the encoded batches on. The task that owns the socket
    /// serves that half.
    pub fn build_and_serve(self) -> (built: (UdpTransport, UnboundedReceiver<Bytes>))
        ensures
            built.0.process() == process_of(self@),
            built.0.encoder().protocol() == protocol_of(self@),
            built.0.encoder().buffer_size() == self@.encoding_buffer_size,
            built.0.encoder().spec_sequence_number() == 0,
            built.0.spec_capacity() == self@.span_buffer_size,
            built.0.spec_buffered() == Seq::<FinishedModel<SpanState>>::empty(),
            built.0.spec_dropped_batches() == 0,
            built.0.handed_on() == Seq::<Seq<u8>>::empty(),
            built.0.spec_batches_cut() == Seq::<Seq<FinishedModel<SpanState>>>::empty(),
    {
        let process_service_name = match self.service_name {
            Some(name) => name,
            None => DEFAULT_SERVICE_NAME.to_owned(),
        };
        let mut process_tags = match self.tags {
            Some(tags) => tags,
            None => Vec::new(),
        };
        let ghost given = process_tags.deep_view();
        process_tags.push(
            Tag::new(JAEGER_CLIENT_VERSION_TAG_KEY, TagValue::text(JAEGER_CLIENT_VERSION)),
        );
        assert(process_tags.deep_view() =~= given.push(client_version_tag()));
        assert(self.tags is None ==> given =~= Seq::<TagModel>::empty());
        let process = Process::with_tags(process_service_name.as_str(), process_tags);
        let encoder = match self.transport_protocol {
            Some(TransportProtocol::ThriftCompact) => ThriftEncoder::compact_protocol(
                self.encoding_buffer_size,
            ),
            _ => ThriftEncoder::binary_protocol(self.encoding_buffer_size),
        };
        let (to_send, outbound) = open_queue();
        let transport = UdpTransport::new(process, to_send, encoder, self.span_buffer_size);
        (transport, outbound)
    }
}

} // verus!
