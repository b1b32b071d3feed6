//! The Jaeger flavour of the tracer: trace identifiers, samplers, reporters
//! and the transport that batches finished spans for a Jaeger agent.

pub mod agent;
pub mod codec;
pub mod payload;
pub mod plan;
pub mod reporter;
pub mod sampler;
pub mod span;
pub mod tag;
pub mod thrift_io;
pub mod tracer;
pub mod transport;
pub mod udp;
pub mod wire;

pub use crate::jaeger::reporter::{
    CompositeReporter, LoggingReporter, NullReporter, RemoteReporter, Reporter,
};
pub use crate::jaeger::sampler::{ConstSampler, ProbabilisticSampler, Sampler};
pub use crate::jaeger::span::{FinishedSpan, Span, SpanBuilder, SpanState, TraceId};
pub use crate::jaeger::tracer::{Process, Tracer, TracerBuilder};
pub use crate::jaeger::transport::{
    SpanBatch, ThriftEncoder, Transport, TransportProtocol, UdpTransport, UdpTransportBuilder,
};
