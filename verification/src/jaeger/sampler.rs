//! Samplers decide, once per trace, whether the trace is recorded.

use crate::jaeger::span::TraceId;
use crate::jaeger::tag;
use crate::tag::{Tag, TagModel, TagValue, TagValueModel};
use vstd::arithmetic::div_mod::{
    lemma_basic_div, lemma_div_is_ordered, lemma_div_multiples_vanish_quotient,
};
use vstd::arithmetic::mul::lemma_mul_inequality;
use vstd::arithmetic::power2::{
    lemma2_to64, lemma2_to64_rest, lemma_pow2_pos, lemma_pow2_strictly_increases,
    lemma_pow2_unfold, pow2,
};
use vstd::bits::{lemma_u64_shl_is_mul, lemma_u64_shr_is_div};
use vstd::prelude::*;

verus! {

/// A sampling policy.
///
/// The decision is a function of the sampler, the trace id and the operation
/// name and of nothing else: asking twice gives the same answer, and asking
/// changes nothing.
///
/// A sampler of this crate says what its decision is. One written elsewhere
/// keeps the two functions below as they are: its decision is then some
/// function of the three that the verifier knows nothing of, and that the
/// sampler is such a function is taken on trust.
pub trait Sampler: Send + Sync {
    /// Whether a new trace with this id, opened by this operation, is sampled.
    open spec fn decides(&self, trace_id: TraceId, operation: Seq<char>) -> bool {
        arbitrary::<spec_fn(&Self, TraceId, Seq<char>) -> bool>()(self, trace_id, operation)
    }

    /// The tags by which the sampler describes itself.
    open spec fn describes(&self) -> Seq<TagModel> {
        arbitrary::<spec_fn(&Self) -> Seq<TagModel>>()(self)
    }

    fn is_sampled(&self, trace_id: &TraceId, operation: &str) -> (answer: (bool, &[Tag]))
        ensures
            answer.0 == self.decides(*trace_id, operation@),
            answer.1.deep_view() == self.describes(),
    ;
}

/// Samples every trace, or none.
pub struct ConstSampler {
    decision: bool,
    tags: Vec<Tag>,
}

/// The tags of a [`ConstSampler`].
pub open spec fn const_sampler_tags() -> Seq<TagModel> {
    seq![
        TagModel {
            name: tag::SAMPLER_TYPE_TAG_KEY@,
            value: TagValueModel::String(tag::SAMPLER_TYPE_CONST@),
        },
    ]
}

impl ConstSampler {
    /// The tags always describe the sampler as constant.
    #[verifier::type_invariant]
    spec fn well_formed(self) -> bool {
        self.tags.deep_view() == const_sampler_tags()
    }

    /// The decision that the sampler gives for every trace.
    pub closed spec fn decision(&self) -> bool {
        self.decision
    }

    pub fn new(sample: bool) -> (sampler: Self)
        ensures
            sampler.decision() == sample,
    {
        let mut tags: Vec<Tag> = Vec::with_capacity(2);
        tags.push(Tag::new(tag::SAMPLER_TYPE_TAG_KEY, TagValue::text(tag::SAMPLER_TYPE_CONST)));
        assert(tags.deep_view() =~= const_sampler_tags());
        Self { decision: sample, tags }
    }
}

impl Sampler for ConstSampler {
    open spec fn decides(&self, trace_id: TraceId, operation: Seq<char>) -> bool {
        self.decision()
    }

    open spec fn describes(&self) -> Seq<TagModel> {
        const_sampler_tags()
    }

    fn is_sampled(&self, _trace_id: &TraceId, _operation: &str) -> (answer: (bool, &[Tag])) {
        proof {
            use_type_invariant(self);
        }
        (self.decision, self.tags.as_slice())
    }
}

/// The bit pattern of the binary64 number 1.0.
pub const RATE_ONE: u64 = 0x3FF0_0000_0000_0000;

/// The bit pattern of the binary64 number -0.0.
pub const RATE_NEGATIVE_ZERO: u64 = 0x8000_0000_0000_0000;

/// Two to the power of 52: the weight of the exponent field in a binary64
/// bit pattern whose sign bit is clear.
pub const FRACTION_MODULUS: u64 = 0x10_0000_0000_0000;

/// The exponent field whose numbers lie between 2^-64 and 2^-63.
pub const EXPONENT_OF_UNIT_STEP: u64 = 1011;

/// Whether `bits` is the pattern of a binary64 number from 0.0 to 1.0. With
/// the sign bit clear the patterns are ordered as the numbers are, so these
/// are the patterns up to that of 1.0, and that of -0.0.
pub open spec fn rate_is_valid(bits: u64) -> bool {
    bits <= RATE_ONE || bits == RATE_NEGATIVE_ZERO
}

/// The rate with the pattern `bits`, times 2^64, rounded down.
///
/// A pattern with the exponent field `e >= 1` and the fraction `f` denotes
/// `(2^52 + f) * 2^(e - 1075)`; one with `e == 0` denotes less than 2^-1022,
/// or zero.
pub open spec fn scaled_rate(bits: u64) -> nat {
    let e = (bits / FRACTION_MODULUS) as nat;
    let significand = (FRACTION_MODULUS + bits % FRACTION_MODULUS) as nat;
    if bits == RATE_NEGATIVE_ZERO || e == 0 {
        0
    } else if e >= EXPONENT_OF_UNIT_STEP {
        significand * pow2((e - EXPONENT_OF_UNIT_STEP) as nat)
    } else {
        significand / pow2((EXPONENT_OF_UNIT_STEP - e) as nat)
    }
}

/// The sampling boundary of a rate: the largest 64-bit number, times the
/// rate. It is the rate times 2^64, rounded down, and the largest 64-bit
/// number where that does not fit.
pub open spec fn boundary_for(bits: u64) -> u64 {
    if scaled_rate(bits) > u64::MAX {
        u64::MAX
    } else {
        scaled_rate(bits) as u64
    }
}

/// The tags of a [`ProbabilisticSampler`] with the rate `bits`.
pub open spec fn probabilistic_sampler_tags(bits: u64) -> Seq<TagModel> {
    seq![
        TagModel {
            name: tag::SAMPLER_TYPE_TAG_KEY@,
            value: TagValueModel::String(tag::SAMPLER_TYPE_PROBABILISTIC@),
        },
        TagModel { name: tag::SAMPLER_PARAM_TAG_KEY@, value: TagValueModel::Number(bits) },
    ]
}

fn boundary_of(bits: u64) -> (boundary: u64)
    requires
        rate_is_valid(bits),
    ensures
        boundary == boundary_for(bits),
{
    if bits == RATE_NEGATIVE_ZERO {
        return 0;
    }
    let e: u64 = bits / FRACTION_MODULUS;
    let significand: u64 = FRACTION_MODULUS + bits % FRACTION_MODULUS;
    proof {
        lemma2_to64();
        lemma2_to64_rest();
    }
    if e == 0 {
        0
    } else if e >= EXPONENT_OF_UNIT_STEP {
        let shift: u64 = e - EXPONENT_OF_UNIT_STEP;
        assert(shift <= 12);
        if shift == 12 {
            assert(significand == FRACTION_MODULUS);
            assert(scaled_rate(bits) == FRACTION_MODULUS * pow2(12));
            u64::MAX
        } else {
            proof {
                if shift < 11 {
                    lemma_pow2_strictly_increases(shift as nat, 11);
                }
                assert(pow2(shift as nat) <= 2048);
                assert(significand * pow2(shift as nat) <= 0x1f_ffff_ffff_ffff * 2048)
                    by (nonlinear_arith)
                    requires
                        significand <= 0x1f_ffff_ffff_ffff,
                        pow2(shift as nat) <= 2048,
                ;
                lemma_u64_shl_is_mul(significand, shift);
            }
            significand << shift
        }
    } else {
        let shift: u64 = EXPONENT_OF_UNIT_STEP - e;
        if shift >= 53 {
            proof {
                if shift > 53 {
                    lemma_pow2_strictly_increases(53, shift as nat);
                }
                lemma_basic_div(significand as int, pow2(shift as nat) as int);
            }
            0
        } else {
            proof {
                lemma_u64_shr_is_div(significand, shift);
            }
            significand >> shift
        }
    }
}

/// The rate that a [`ProbabilisticSampler`] was asked for is no number from
/// 0.0 to 1.0.
#[derive(Debug, Clone, Copy, PartialEq, Eq, Structural)]
pub struct InvalidSamplingRate {
    /// The bit pattern that was refused.
    pub rate_bits: u64,
}

/// Samples the given share of all traces, chosen by the low half of the
/// trace id.
pub struct ProbabilisticSampler {
    sampling_rate: u64,
    sampling_boundary: u64,
    tags: Vec<Tag>,
}

impl ProbabilisticSampler {
    /// The boundary and the tags are those of the rate.
    #[verifier::type_invariant]
    spec fn well_formed(self) -> bool {
        &&& rate_is_valid(self.sampling_rate)
        &&& self.sampling_boundary == boundary_for(self.sampling_rate)
        &&& self.tags.deep_view() == probabilistic_sampler_tags(self.sampling_rate)
    }

    /// The bit pattern of the rate.
    pub closed spec fn rate_bits(&self) -> u64 {
        self.sampling_rate
    }

    /// The trace ids whose low half is below this number are sampled.
    pub closed spec fn boundary(&self) -> u64 {
        self.sampling_boundary
    }

    /// A sampler for the rate whose binary64 bit pattern is `rate_bits`. A
    /// rate that is no number from 0.0 to 1.0 is refused.
    pub fn new(rate_bits: u64) -> (made: Result<Self, InvalidSamplingRate>)
        ensures
            made is Ok <==> rate_is_valid(rate_bits),
            made matches Ok(sampler) ==> sampler.rate_bits() == rate_bits && sampler.boundary()
                == boundary_for(rate_bits),
            made matches Err(refused) ==> refused.rate_bits == rate_bits,
    {
        if rate_bits > RATE_ONE && rate_bits != RATE_NEGATIVE_ZERO {
            return Err(InvalidSamplingRate { rate_bits });
        }
        let mut tags: Vec<Tag> = Vec::new();
        tags.push(
            Tag::new(tag::SAMPLER_TYPE_TAG_KEY, TagValue::text(tag::SAMPLER_TYPE_PROBABILISTIC)),
        );
        tags.push(Tag::new(tag::SAMPLER_PARAM_TAG_KEY, TagValue::number_from_bits(rate_bits)));
        assert(tags.deep_view() =~= probabilistic_sampler_tags(rate_bits));
        let sampling_boundary = boundary_of(rate_bits);
        Ok(Self { sampling_boundary, sampling_rate: rate_bits, tags })
    }

    /// The bit pattern of the rate that the sampler was made for.
    pub fn sampling_rate(&self) -> (rate_bits: u64)
        ensures
            rate_bits == self.rate_bits(),
            rate_is_valid(rate_bits),
    {
        proof {
            use_type_invariant(self);
        }
        self.sampling_rate
    }

    pub fn sampling_boundary(&self) -> (boundary: u64)
        ensures
            boundary == self.boundary(),
            boundary == boundary_for(self.rate_bits()),
    {
        proof {
            use_type_invariant(self);
        }
        self.sampling_boundary
    }
}

impl Sampler for ProbabilisticSampler {
    open spec fn decides(&self, trace_id: TraceId, operation: Seq<char>) -> bool {
        self.boundary() > trace_id.low
    }

    open spec fn describes(&self) -> Seq<TagModel> {
        probabilistic_sampler_tags(self.rate_bits())
    }

    fn is_sampled(&self, trace_id: &TraceId, _operation: &str) -> (answer: (bool, &[Tag])) {
        proof {
            use_type_invariant(self);
        }
        (self.sampling_boundary > trace_id.low, self.tags.as_slice())
    }
}

/// A sampler for the rate 0.0 samples no trace. One for the rate 1.0 samples
/// every trace but those whose id has the largest 64-bit number as its low
/// half: its boundary is that number, and a trace is sampled when the low
/// half of its id is below the boundary.
pub proof fn lemma_extreme_rates(
    sampler: ProbabilisticSampler,
    trace_id: TraceId,
    operation: Seq<char>,
)
    requires
        sampler.boundary() == boundary_for(sampler.rate_bits()),
    ensures
        sampler.rate_bits() == 0 || sampler.rate_bits() == RATE_NEGATIVE_ZERO
            ==> !sampler.decides(trace_id, operation),
        sampler.rate_bits() == RATE_ONE ==> (sampler.decides(trace_id, operation) <==> trace_id.low
            != u64::MAX),
{
    lemma2_to64();
    lemma2_to64_rest();
    assert(scaled_rate(RATE_ONE) == FRACTION_MODULUS * pow2(12));
}

/// Of the 2^64 values that the low half of a trace id can take, a sampler
/// samples exactly those below its boundary: as many as the boundary says,
/// which is the rate's share of them, rounded down.
pub proof fn lemma_sampled_share(sampler: ProbabilisticSampler, operation: Seq<char>)
    ensures
        forall|trace_id: TraceId| #[trigger]
            sampler.decides(trace_id, operation) <==> trace_id.low < sampler.boundary(),
{
}

/// A significand scaled as [`scaled_rate`] scales it, for an exponent field
/// of one or more.
spec fn scaled(significand: nat, e: nat) -> nat {
    if e >= EXPONENT_OF_UNIT_STEP {
        significand * pow2((e - EXPONENT_OF_UNIT_STEP) as nat)
    } else {
        significand / pow2((EXPONENT_OF_UNIT_STEP - e) as nat)
    }
}

proof fn lemma_scaled_grows_with_significand(smaller: nat, larger: nat, e: nat)
    requires
        smaller <= larger,
    ensures
        scaled(smaller, e) <= scaled(larger, e),
{
    if e >= EXPONENT_OF_UNIT_STEP {
        lemma_mul_inequality(
            smaller as int,
            larger as int,
            pow2((e - EXPONENT_OF_UNIT_STEP) as nat) as int,
        );
    } else {
        lemma_pow2_pos((EXPONENT_OF_UNIT_STEP - e) as nat);
        lemma_div_is_ordered(
            smaller as int,
            larger as int,
            pow2((EXPONENT_OF_UNIT_STEP - e) as nat) as int,
        );
    }
}

/// The largest significand of one exponent scales to no more than the
/// smallest significand of the next.
proof fn lemma_scaled_across_exponents(e: nat)
    requires
        e >= 1,
    ensures
        scaled((2 * FRACTION_MODULUS - 1) as nat, e) <= scaled(FRACTION_MODULUS as nat, e + 1),
{
    let m = FRACTION_MODULUS as int;
    if e >= EXPONENT_OF_UNIT_STEP {
        let k = (e - EXPONENT_OF_UNIT_STEP) as nat;
        lemma_pow2_unfold(k + 1);
        lemma_pow2_pos(k);
        let p = pow2(k) as int;
        assert((2 * m - 1) * p <= m * (2 * p)) by (nonlinear_arith)
            requires
                p > 0,
                m > 0,
        ;
    } else if e + 1 == EXPONENT_OF_UNIT_STEP {
        lemma2_to64();
        assert(pow2(1) == 2);
        assert(pow2(0) == 1);
        assert((2 * m - 1) / 2 == m - 1);
        assert(m * 1 == m);
    } else {
        let k = (EXPONENT_OF_UNIT_STEP - e - 1) as nat;
        lemma_pow2_unfold(k + 1);
        lemma_pow2_pos(k);
        lemma_pow2_pos(k + 1);
        let p = pow2(k) as int;
        lemma_div_is_ordered(2 * m - 1, 2 * m, 2 * p);
        lemma_div_multiples_vanish_quotient(2, m, p);
    }
}

proof fn lemma_scaled_grows(smaller: nat, e1: nat, larger: nat, e2: nat)
    requires
        1 <= e1 <= e2,
        FRACTION_MODULUS <= smaller < 2 * FRACTION_MODULUS,
        FRACTION_MODULUS <= larger < 2 * FRACTION_MODULUS,
        e1 == e2 ==> smaller <= larger,
    ensures
        scaled(smaller, e1) <= scaled(larger, e2),
    decreases e2 - e1,
{
    if e1 == e2 {
        lemma_scaled_grows_with_significand(smaller, larger, e1);
    } else {
        lemma_scaled_grows_with_significand(smaller, (2 * FRACTION_MODULUS - 1) as nat, e1);
        lemma_scaled_across_exponents(e1);
        lemma_scaled_grows(FRACTION_MODULUS as nat, e1 + 1, larger, e2);
    }
}

/// A larger rate has no smaller boundary: whatever a sampler samples, a
/// sampler for a larger rate samples too.
pub proof fn lemma_boundary_grows_with_rate(smaller: u64, larger: u64, trace_id: TraceId)
    requires
        smaller <= larger <= RATE_ONE,
    ensures
        boundary_for(smaller) <= boundary_for(larger),
        boundary_for(smaller) > trace_id.low ==> boundary_for(larger) > trace_id.low,
{
    let e1 = (smaller / FRACTION_MODULUS) as nat;
    let e2 = (larger / FRACTION_MODULUS) as nat;
    if e1 >= 1 {
        lemma_scaled_grows(
            (FRACTION_MODULUS + smaller % FRACTION_MODULUS) as nat,
            e1,
            (FRACTION_MODULUS + larger % FRACTION_MODULUS) as nat,
            e2,
        );
    }
}

/// A constant sampler gives its one decision for every trace and every
/// operation: built with `true` it samples all of them, with `false` none.
pub proof fn lemma_const_sampler_is_constant(
    sampler: ConstSampler,
    trace_id: TraceId,
    operation: Seq<char>,
)
    ensures
        sampler.decides(trace_id, operation) == sampler.decision(),
        sampler.describes() == const_sampler_tags(),
{
}

} // verus!
