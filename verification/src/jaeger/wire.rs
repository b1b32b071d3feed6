//! The records of the agent's schema, as they go on the wire: a batch is one
//! process and the spans it reports.

use vstd::prelude::*;

verus! {

/// Which of a tag's value fields is in use.
#[derive(Debug, Clone, Copy, PartialEq, Eq, Structural)]
pub enum TagType {
    String,
    Double,
    Bool,
    Long,
    Binary,
}

impl TagType {
    /// The number that stands for the type on the wire.
    pub open spec fn spec_code(&self) -> i32 {
        match self {
            TagType::String => 0,
            TagType::Double => 1,
            TagType::Bool => 2,
            TagType::Long => 3,
            TagType::Binary => 4,
        }
    }

    #[verifier::when_used_as_spec(spec_code)]
    pub fn code(&self) -> (code: i32)
        ensures
            code == self.spec_code(),
    {
        match self {
            TagType::String => 0,
            TagType::Double => 1,
            TagType::Bool => 2,
            TagType::Long => 3,
            TagType::Binary => 4,
        }
    }
}

/// A tag on the wire. Of the value fields, the one that `v_type` names is
/// meant to be present and no other.
#[derive(Debug)]
pub struct Tag {
    pub key: String,
    pub v_type: TagType,
    pub v_str: Option<String>,
    /// The bit pattern of the binary64 value.
    pub v_double: Option<u64>,
    pub v_bool: Option<bool>,
    pub v_long: Option<i64>,
    pub v_binary: Option<Vec<u8>>,
}

/// What a wire [`Tag`] denotes.
pub ghost struct TagModel {
    pub key: Seq<char>,
    pub v_type: TagType,
    pub v_str: Option<Seq<char>>,
    pub v_double: Option<u64>,
    pub v_bool: Option<bool>,
    pub v_long: Option<i64>,
    pub v_binary: Option<Seq<u8>>,
}

impl TagModel {
    /// Whether exactly the value field that the type names is present.
    pub open spec fn holds_one_value(self) -> bool {
        &&& self.v_str is Some <==> self.v_type == TagType::String
        &&& self.v_double is Some <==> self.v_type == TagType::Double
        &&& self.v_bool is Some <==> self.v_type == TagType::Bool
        &&& self.v_long is Some <==> self.v_type == TagType::Long
        &&& self.v_binary is Some <==> self.v_type == TagType::Binary
    }
}

impl DeepView for Tag {
    type V = TagModel;

    open spec fn deep_view(&self) -> TagModel {
        TagModel {
            key: self.key@,
            v_type: self.v_type,
            v_str: match self.v_str {
                Some(s) => Some(s@),
                None => None,
            },
            v_double: self.v_double,
            v_bool: self.v_bool,
            v_long: self.v_long,
            v_binary: match self.v_binary {
                Some(b) => Some(b@),
                None => None,
            },
        }
    }
}

/// A span on the wire. Times are in microseconds.
#[derive(Debug)]
pub struct Span {
    pub trace_id_low: i64,
    pub trace_id_high: i64,
    pub span_id: i64,
    pub parent_span_id: i64,
    pub operation_name: String,
    pub flags: i32,
    pub start_time: i64,
    pub duration: i64,
}

/// What a wire [`Span`] denotes.
pub ghost struct SpanModel {
    pub trace_id_low: i64,
    pub trace_id_high: i64,
    pub span_id: i64,
    pub parent_span_id: i64,
    pub operation_name: Seq<char>,
    pub flags: i32,
    pub start_time: i64,
    pub duration: i64,
}

impl DeepView for Span {
    type V = SpanModel;

    open spec fn deep_view(&self) -> SpanModel {
        SpanModel {
            trace_id_low: self.trace_id_low,
            trace_id_high: self.trace_id_high,
            span_id: self.span_id,
            parent_span_id: self.parent_span_id,
            operation_name: self.operation_name@,
            flags: self.flags,
            start_time: self.start_time,
            duration: self.duration,
        }
    }
}

/// The reporting process on the wire.
#[derive(Debug)]
pub struct Process {
    pub service_name: String,
    pub tags: Option<Vec<Tag>>,
}

/// What a wire [`Process`] denotes.
pub ghost struct ProcessModel {
    pub service_name: Seq<char>,
    pub tags: Option<Seq<TagModel>>,
}

impl DeepView for Process {
    type V = ProcessModel;

    open spec fn deep_view(&self) -> ProcessModel {
        ProcessModel {
            service_name: self.service_name@,
            tags: match self.tags {
                Some(tags) => Some(tags.deep_view()),
                None => None,
            },
        }
    }
}

/// One process and the spans it reports together.
#[derive(Debug)]
pub struct Batch {
    pub process: Process,
    pub spans: Vec<Span>,
}

/// What a wire [`Batch`] denotes.
pub ghost struct BatchModel {
    pub process: ProcessModel,
    pub spans: Seq<SpanModel>,
}

impl DeepView for Batch {
    type V = BatchModel;

    open spec fn deep_view(&self) -> BatchModel {
        BatchModel { process: self.process.deep_view(), spans: self.spans.deep_view() }
    }
}

} // verus!
