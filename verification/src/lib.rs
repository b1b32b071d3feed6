//! A distributed-tracing client: spans are opened, annotated and finished by
//! application code, queued for a single consumer, batched by a transport and
//! encoded for a Jaeger agent.
//!
//! The crate root holds the backend-neutral vocabulary (spans, tags, time);
//! [`jaeger`] holds the Jaeger flavoured tracer, samplers, reporters and the
//! batching transport.

pub mod jaeger;
pub mod queue;
pub mod span;
pub mod tag;
pub mod time;
pub mod tracer;

pub use crate::span::{BaggageItem, FinishedSpan, Span, SpanBuilder, SpanContext, SpanReference};
pub use crate::tag::{Tag, TagValue};
pub use crate::time::{Elapsed, Timestamp};
pub use crate::tracer::Tracer;
