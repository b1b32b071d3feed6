//! The tracer: the shared handle from which spans are built, and the
//! description of the process that reports them.

use crate::jaeger::reporter::{RemoteReporter, Reporter};
use crate::jaeger::sampler::{
    ConstSampler, ProbabilisticSampler, Sampler, boundary_for, rate_is_valid,
};
use crate::jaeger::span::TraceId;
use crate::jaeger::transport::{
    TransportProtocol, TransportSettings, UdpTransport, default_settings, process_of, span_models,
};
use crate::span::FinishedModel;
use crate::jaeger::span::{BuilderModel, FinishedSpan, SpanBuilder, SpanState};
use crate::jaeger::tag::{JAEGER_CLIENT_VERSION, JAEGER_CLIENT_VERSION_TAG_KEY};
use crate::queue::{another_sender, open_queue};
use crate::tag::{Tag, TagModel, TagValue, TagValueModel, clone_tags};
use bytes::Bytes;
use futures::sync::mpsc::{UnboundedReceiver, UnboundedSender};
use std::sync::Arc;
use vstd::prelude::*;

verus! {

/// The process on whose behalf spans are reported.
pub struct Process {
    service_name: String,
    tags: Vec<Tag>,
}

/// What a [`Process`] denotes.
pub ghost struct ProcessModel {
    pub service_name: Seq<char>,
    pub tags: Seq<TagModel>,
}

/// The tag that names the version of this client.
pub open spec fn client_version_tag() -> TagModel {
    TagModel {
        name: JAEGER_CLIENT_VERSION_TAG_KEY@,
        value: TagValueModel::String(JAEGER_CLIENT_VERSION@),
    }
}

impl View for Process {
    type V = ProcessModel;

    closed spec fn view(&self) -> ProcessModel {
        ProcessModel { service_name: self.service_name@, tags: self.tags.deep_view() }
    }
}

impl Clone for Process {
    fn clone(&self) -> (copy: Self)
        ensures
            copy@ == self@,
    {
        Process { service_name: self.service_name.clone(), tags: clone_tags(&self.tags) }
    }
}

impl Process {
    /// A process called `service_name`, tagged with the client's version.
    pub fn new(service_name: &str) -> (process: Self)
        ensures
            process@ == (ProcessModel {
                service_name: service_name@,
                tags: seq![client_version_tag()],
            }),
    {
        let mut tags: Vec<Tag> = Vec::new();
        tags.push(Tag::new(JAEGER_CLIENT_VERSION_TAG_KEY, TagValue::text(JAEGER_CLIENT_VERSION)));
        assert(tags.deep_view() =~= seq![client_version_tag()]);
        Self::with_tags(service_name, tags)
    }

    /// A process called `service_name` with exactly the tags given.
    pub fn with_tags(service_name: &str, tags: Vec<Tag>) -> (process: Self)
        ensures
            process@ == (ProcessModel { service_name: service_name@, tags: tags.deep_view() }),
    {
        Self { service_name: service_name.to_owned(), tags }
    }

    pub fn add_tag(&mut self, tag: Tag)
        ensures
            final(self)@ == (ProcessModel {
                tags: old(self)@.tags.push(tag.deep_view()),
                ..old(self)@
            }),
    {
        self.tags.push(tag);
        assert(self.tags.deep_view() =~= old(self).tags.deep_view().push(tag.deep_view()));
    }

    pub fn service_name(&self) -> (name: &str)
        ensures
            name@ == self@.service_name,
    {
        self.service_name.as_str()
    }

    pub fn tags(&self) -> (tags: &Vec<Tag>)
        ensures
            tags.deep_view() == self@.tags,
    {
        &self.tags
    }
}

/// The handle from which spans are built. Its copies share one sampler and
/// feed one queue of finished spans.
pub struct Tracer<P: Sampler> {
    sampler: Arc<P>,
    sender: UnboundedSender<FinishedSpan>,
}

impl<P: Sampler> Clone for Tracer<P> {
    fn clone(&self) -> (copy: Self)
        ensures
            copy.sampler() == self.sampler(),
    {
        Tracer { sampler: self.sampler.clone(), sender: another_sender(&self.sender) }
    }
}

impl<P: Sampler> Tracer<P> {
    /// The sampler that decides for the traces that this tracer opens.
    pub closed spec fn sampler(&self) -> P {
        *self.sampler
    }

    /// A tracer that samples with `sampler`, and the receiving half of the
    /// queue onto which its spans go when they finish. Whoever holds that
    /// half takes the spans off in the order in which they finished.
    pub fn new(sampler: Arc<P>) -> (parts: (Self, UnboundedReceiver<FinishedSpan>))
        ensures
            parts.0.sampler() == *sampler,
    {
        let (sender, receiver) = open_queue();
        (Tracer { sampler, sender }, receiver)
    }
}

impl<P: Sampler> crate::tracer::Tracer for Tracer<P> {
    type SpanState = SpanState;

    type SpanBuilder = SpanBuilder<P>;

    fn span(&mut self, operation_name: &str) -> (builder: SpanBuilder<P>)
        ensures
            builder.sampler() == old(self).sampler(),
            final(self).sampler() == old(self).sampler(),
            builder@ == (BuilderModel {
                operation_name: operation_name@,
                start_time: None,
                tags: Seq::empty(),
                references: Seq::empty(),
                baggage: Seq::empty(),
            }),
    {
        SpanBuilder::new(operation_name, self.sampler.clone(), another_sender(&self.sender))
    }
}

/// Serves the reporter with spans that came off the queue of finished
/// spans: they are handed over one by one, in their order, each before the
/// next is looked at.
pub fn serve<R: Reporter>(reporter: &mut R, finished: Vec<FinishedSpan>)
    ensures
        final(reporter).received() == old(reporter).received() + span_models(finished@),
{
    let ghost start = reporter.received();
    let ghost all = span_models(finished@);
    for span in it: finished
        invariant
            it.seq().map_values(|s: FinishedSpan| s@) == all,
            reporter.received() == start + all.subrange(0, it.index() as int),
    {
        assert(span@ == all[it.index() as int]);
        reporter.report(span);
        assert(reporter.received() =~= start + all.subrange(0, it.index() + 1));
    }
    assert(all.subrange(0, all.len() as int) =~= all);
}

/// Either of the samplers of this crate.
pub enum AnySampler {
    Const(ConstSampler),
    Probabilistic(ProbabilisticSampler),
}

impl Sampler for AnySampler {
    open spec fn decides(&self, trace_id: TraceId, operation: Seq<char>) -> bool {
        match self {
            AnySampler::Const(sampler) => sampler.decides(trace_id, operation),
            AnySampler::Probabilistic(sampler) => sampler.decides(trace_id, operation),
        }
    }

    open spec fn describes(&self) -> Seq<TagModel> {
        match self {
            AnySampler::Const(sampler) => sampler.describes(),
            AnySampler::Probabilistic(sampler) => sampler.describes(),
        }
    }

    fn is_sampled(&self, trace_id: &TraceId, operation: &str) -> (answer: (bool, &[Tag])) {
        match self {
            AnySampler::Const(sampler) => sampler.is_sampled(trace_id, operation),
            AnySampler::Probabilistic(sampler) => sampler.is_sampled(trace_id, operation),
        }
    }
}

/// All that a running tracer consists of: the tracer itself, the queue of
/// finished spans, the reporter that is to take them off that queue, and
/// the queue of encoded batches for whoever owns the socket.
pub struct Pipeline {
    pub tracer: Tracer<AnySampler>,
    pub finished: UnboundedReceiver<FinishedSpan>,
    pub reporter: RemoteReporter<UdpTransport>,
    pub outbound: UnboundedReceiver<Bytes>,
}

/// Collects the choice of a sampler and of a reporter for a tracer.
pub struct TracerBuilder {
    sampler: Option<AnySampler>,
    reporter: Option<RemoteReporter<UdpTransport>>,
    outbound: Option<UnboundedReceiver<Bytes>>,
}

impl Default for TracerBuilder {
    fn default() -> (builder: Self)
        ensures
            builder.sampler() is None,
            builder.reporter() is None,
    {
        TracerBuilder { sampler: None, reporter: None, outbound: None }
    }
}

/// The settings of the transport behind a remote reporter for the service
/// `service_name` that writes `protocol`.
pub open spec fn remote_settings(
    service_name: Seq<char>,
    protocol: TransportProtocol,
) -> TransportSettings {
    TransportSettings {
        service_name: Some(service_name),
        transport_protocol: Some(protocol),
        ..default_settings()
    }
}

impl TracerBuilder {
    /// A reporter is never without the queue that its transport feeds.
    #[verifier::type_invariant]
    spec fn well_formed(self) -> bool {
        self.reporter is Some ==> self.outbound is Some
    }

    /// The sampler that was chosen, if one was.
    pub closed spec fn sampler(&self) -> Option<AnySampler> {
        self.sampler
    }

    /// The reporter that was chosen, if one was.
    pub closed spec fn reporter(&self) -> Option<RemoteReporter<UdpTransport>> {
        self.reporter
    }

    /// Whether both a sampler and a reporter were chosen.
    pub fn is_complete(&self) -> (complete: bool)
        ensures
            complete == (self.sampler() is Some && self.reporter() is Some),
    {
        self.sampler.is_some() && self.reporter.is_some()
    }

    /// Chooses the sampler that gives `sample` for every trace.
    pub fn const_sampler(self, sample: bool) -> (builder: Self)
        ensures
            builder.reporter() == self.reporter(),
            builder.sampler() matches Some(AnySampler::Const(sampler)) && sampler.decision()
                == sample,
    {
        proof {
            use_type_invariant(&self);
        }
        TracerBuilder {
            sampler: Some(AnySampler::Const(ConstSampler::new(sample))),
            reporter: self.reporter,
            outbound: self.outbound,
        }
    }

    /// Chooses the sampler for the rate with the binary64 bit pattern
    /// `rate_bits`, which has to be a number from 0.0 to 1.0.
    pub fn probabilistic_sampler(self, rate_bits: u64) -> (builder: Self)
        requires
            rate_is_valid(rate_bits),
        ensures
            builder.reporter() == self.reporter(),
            builder.sampler() matches Some(AnySampler::Probabilistic(sampler))
                && sampler.rate_bits() == rate_bits && sampler.boundary() == boundary_for(
                rate_bits,
            ),
    {
        proof {
            use_type_invariant(&self);
        }
        let sampler = ProbabilisticSampler::new(rate_bits).unwrap();
        TracerBuilder {
            sampler: Some(AnySampler::Probabilistic(sampler)),
            reporter: self.reporter,
            outbound: self.outbound,
        }
    }

    /// Chooses a reporter that sends batches for the service `service_name`
    /// to an agent, encoded as `protocol` says.
    pub fn udp_remote_reporter(self, service_name: &str, protocol: TransportProtocol) -> (builder:
        Self)
        ensures
            builder.sampler() == self.sampler(),
            builder.reporter() matches Some(reporter) && {
                let transport = reporter.spec_transport();
                &&& reporter.received() == Seq::<FinishedModel<SpanState>>::empty()
                &&& transport.process() == process_of(remote_settings(service_name@, protocol))
                &&& transport.encoder().protocol() == protocol
                &&& transport.spec_capacity() == default_settings().span_buffer_size
                &&& transport.spec_buffered() == Seq::<FinishedModel<SpanState>>::empty()
            },
    {
        let (transport, outbound) = UdpTransport::builder().process_service_name(
            service_name,
        ).transport_protocol(protocol).build_and_serve();
        TracerBuilder {
            sampler: self.sampler,
            reporter: Some(RemoteReporter::new(transport)),
            outbound: Some(outbound),
        }
    }

    /// Builds the tracer and hands out all its parts. Both a sampler and a
    /// reporter have to be chosen before.
    pub fn build_and_serve(self) -> (pipeline: Pipeline)
        requires
            self.sampler() is Some,
            self.reporter() is Some,
        ensures
            Some(pipeline.tracer.sampler()) == self.sampler(),
            Some(pipeline.reporter) == self.reporter(),
    {
        proof {
            use_type_invariant(&self);
        }
        let (tracer, finished) = Tracer::new(Arc::new(self.sampler.unwrap()));
        Pipeline {
            tracer,
            finished,
            reporter: self.reporter.unwrap(),
            outbound: self.outbound.unwrap(),
        }
    }
}

impl Tracer<AnySampler> {
    pub fn builder() -> (builder: TracerBuilder)
        ensures
            builder.sampler() is None,
            builder.reporter() is None,
    {
        TracerBuilder::default()
    }
}

} // verus!
