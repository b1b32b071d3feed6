//! What every tracer offers: builders for spans.

use vstd::prelude::*;

verus! {

/// A source of spans.
pub trait Tracer {
    /// The backend's state of a span.
    type SpanState;

    /// The builder that the tracer hands out.
    type SpanBuilder;

    /// A builder for a span called `operation_name`.
    fn span(&mut self, operation_name: &str) -> Self::SpanBuilder;
}

} // verus!
