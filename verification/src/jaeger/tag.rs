//! Names and values of the tags that the client itself attaches.

use vstd::prelude::*;

verus! {

pub const JAEGER_CLIENT_VERSION_TAG_KEY: &'static str = "jaeger.version";

pub const JAEGER_CLIENT_VERSION: &'static str = "opentracing-rs-0.1.0";

pub const SAMPLER_TYPE_TAG_KEY: &'static str = "sampler.type";

pub const SAMPLER_PARAM_TAG_KEY: &'static str = "sampler.param";

pub const SAMPLER_TYPE_CONST: &'static str = "const";

pub const SAMPLER_TYPE_REMOTE: &'static str = "remote";

pub const SAMPLER_TYPE_PROBABILISTIC: &'static str = "probabilistic";

} // verus!
