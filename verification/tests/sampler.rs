use opentracing_rs::jaeger::sampler::{
    ConstSampler, InvalidSamplingRate, ProbabilisticSampler, Sampler, RATE_NEGATIVE_ZERO, RATE_ONE,
};
use opentracing_rs::jaeger::span::TraceId;
use opentracing_rs::tag::{Tag, TagValue};

fn id(low: u64) -> TraceId {
    TraceId { low, high: 99 }
}

fn probabilistic(rate: f64) -> ProbabilisticSampler {
    match ProbabilisticSampler::new(rate.to_bits()) {
        Ok(sampler) => sampler,
        Err(_) => panic!("rate {} was refused", rate),
    }
}

/// The boundary as it is computed in floating point.
fn boundary_in_floating_point(rate: f64) -> u64 {
    (u64::MAX as f64 * rate) as u64
}

fn text_of(tag: &Tag) -> String {
    match tag.value() {
        TagValue::String(s) => s.clone(),
        _ => panic!("a string was expected"),
    }
}

struct Alternating;

impl Sampler for Alternating {
    fn is_sampled(&self, trace_id: &TraceId, _operation: &str) -> (bool, &[Tag]) {
        (trace_id.low % 2 == 0, &[])
    }
}

#[test]
fn const_sampler_true_samples_every_trace() {
    let sampler = ConstSampler::new(true);
    for low in [0u64, 1, 2, u64::MAX / 2, u64::MAX] {
        assert!(sampler.is_sampled(&id(low), "op").0);
    }
    assert!(sampler.is_sampled(&TraceId::new(), "other").0);
}

#[test]
fn const_sampler_false_samples_no_trace() {
    let sampler = ConstSampler::new(false);
    for low in [0u64, 1, 2, u64::MAX / 2, u64::MAX] {
        assert!(!sampler.is_sampled(&id(low), "op").0);
    }
    assert!(!sampler.is_sampled(&TraceId::new(), "other").0);
}

#[test]
fn const_sampler_describes_itself() {
    let sampler = ConstSampler::new(true);
    let (_, tags) = sampler.is_sampled(&id(1), "op");
    assert_eq!(tags.len(), 1);
    assert_eq!(tags[0].name(), "sampler.type");
    assert_eq!(text_of(&tags[0]), "const");
}

#[test]
fn probabilistic_sampler_describes_itself() {
    let sampler = probabilistic(0.125);
    let (_, tags) = sampler.is_sampled(&id(1), "op");
    assert_eq!(tags.len(), 2);
    assert_eq!(tags[0].name(), "sampler.type");
    assert_eq!(text_of(&tags[0]), "probabilistic");
    assert_eq!(tags[1].name(), "sampler.param");
    match tags[1].value() {
        TagValue::Number(bits) => assert_eq!(f64::from_bits(*bits), 0.125),
        _ => panic!("a number was expected"),
    }
    assert_eq!(f64::from_bits(sampler.sampling_rate()), 0.125);
}

#[test]
fn rate_zero_never_samples() {
    let sampler = probabilistic(0.0);
    assert_eq!(sampler.sampling_boundary(), 0);
    for low in [0u64, 1, 1 << 32, u64::MAX] {
        assert!(!sampler.is_sampled(&id(low), "op").0);
    }
    for _ in 0..1000 {
        assert!(!sampler.is_sampled(&TraceId::new(), "op").0);
    }
}

#[test]
fn negative_zero_is_the_rate_zero() {
    let sampler = probabilistic(-0.0);
    assert_eq!(sampler.sampling_rate(), RATE_NEGATIVE_ZERO);
    assert_eq!(sampler.sampling_boundary(), 0);
    assert!(!sampler.is_sampled(&id(0), "op").0);
}

#[test]
fn rate_one_samples_all_but_the_largest_low_half() {
    let sampler = probabilistic(1.0);
    assert_eq!(sampler.sampling_rate(), RATE_ONE);
    assert_eq!(sampler.sampling_boundary(), u64::MAX);
    for low in [0u64, 1, 1 << 63, u64::MAX - 1] {
        assert!(sampler.is_sampled(&id(low), "op").0);
    }
    assert!(!sampler.is_sampled(&id(u64::MAX), "op").0);
}

#[test]
fn boundary_is_exact_for_powers_of_two() {
    assert_eq!(probabilistic(0.5).sampling_boundary(), 1 << 63);
    assert_eq!(probabilistic(0.25).sampling_boundary(), 1 << 62);
    assert_eq!(probabilistic(0.75).sampling_boundary(), 3 << 62);
    assert_eq!(probabilistic(2f64.powi(-64)).sampling_boundary(), 1);
    assert_eq!(probabilistic(2f64.powi(-65)).sampling_boundary(), 0);
    assert_eq!(probabilistic(3.0 * 2f64.powi(-64)).sampling_boundary(), 3);
    assert_eq!(probabilistic(f64::MIN_POSITIVE).sampling_boundary(), 0);
    assert_eq!(probabilistic(f64::from_bits(1)).sampling_boundary(), 0);
}

#[test]
fn boundary_agrees_with_floating_point() {
    let mut rates: Vec<f64> = vec![
        0.0, 1.0, 0.5, 0.1, 0.2, 0.3, 0.001, 0.999, 0.9999999999999999, 1e-10, 1e-19, 1e-20,
        5.421010862427522e-20, 1e-300, 0.333333333333, 0.7071067811865476,
    ];
    let mut x: u64 = 0x9E37_79B9_7F4A_7C15;
    for _ in 0..20_000 {
        // A fixed walk through the bit patterns of the rates below one.
        x = x.wrapping_mul(6364136223846793005).wrapping_add(1442695040888963407);
        rates.push(f64::from_bits(x % (RATE_ONE + 1)));
        rates.push((x >> 11) as f64 / (1u64 << 53) as f64);
    }
    for rate in rates {
        assert_eq!(
            probabilistic(rate).sampling_boundary(),
            boundary_in_floating_point(rate),
            "rate {:e}",
            rate
        );
    }
}

#[test]
fn decision_compares_the_low_half_with_the_boundary() {
    let sampler = probabilistic(0.5);
    let boundary = sampler.sampling_boundary();
    assert!(sampler.is_sampled(&id(boundary - 1), "op").0);
    assert!(!sampler.is_sampled(&id(boundary), "op").0);
    assert!(!sampler.is_sampled(&id(boundary + 1), "op").0);
    assert!(sampler.is_sampled(&TraceId { low: 0, high: u64::MAX }, "op").0);
}

#[test]
fn sampled_share_is_close_to_the_rate() {
    for rate in [0.1f64, 0.5, 0.9] {
        let sampler = probabilistic(rate);
        let n = 20_000;
        let mut sampled = 0;
        for _ in 0..n {
            if sampler.is_sampled(&TraceId::new(), "op").0 {
                sampled += 1;
            }
        }
        let share = sampled as f64 / n as f64;
        assert!((share - rate).abs() < 0.03, "rate {} gave the share {}", rate, share);
    }
}

#[test]
fn rates_outside_the_unit_interval_are_refused() {
    for rate in [-0.5f64, 1.5, 1.0000000000000002, -1e-300, f64::INFINITY, f64::NEG_INFINITY] {
        match ProbabilisticSampler::new(rate.to_bits()) {
            Ok(_) => panic!("rate {} was taken", rate),
            Err(refused) => {
                assert_eq!(refused, InvalidSamplingRate { rate_bits: rate.to_bits() })
            }
        }
    }
    assert!(ProbabilisticSampler::new(f64::NAN.to_bits()).is_err());
    assert!(ProbabilisticSampler::new(u64::MAX).is_err());
}

#[test]
fn fresh_trace_ids_differ() {
    let a = TraceId::new();
    let b = TraceId::new();
    assert!(a != b);
    assert!(a.low != a.high || a.low != b.low);
}

#[test]
fn a_sampler_can_be_written_outside() {
    let sampler = Alternating;
    assert!(sampler.is_sampled(&id(4), "op").0);
    assert!(!sampler.is_sampled(&id(5), "op").0);
}
