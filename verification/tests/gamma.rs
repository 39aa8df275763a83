use fanservice::gamma::{is_usable_exponent, lerp, GammaCurve, SAMPLES, SEGMENTS, UNIT};

fn samples_for(gamma: f64) -> Vec<u32> {
    (0..SAMPLES)
        .map(|i| ((i as f64 / SEGMENTS as f64).powf(gamma) * UNIT as f64).round() as u32)
        .collect()
}

#[test]
fn identity_curve_reads_each_fraction_as_itself() {
    let curve = GammaCurve::identity();
    for x in [0u32, 1, 62_499, 62_500, 62_501, 333_333, 500_000, 999_999, 1_000_000] {
        assert_eq!(curve.evaluate(x), x);
    }
}

#[test]
fn identity_curve_is_the_curve_of_exponent_one() {
    let built = GammaCurve::from_samples(samples_for(1.0)).unwrap();
    assert_eq!(built.samples(), GammaCurve::identity().samples());
    assert_eq!(GammaCurve::identity().samples()[1], 62_500);
    assert_eq!(GammaCurve::identity().samples()[16], 1_000_000);
}

#[test]
fn endpoints_are_exact_for_any_positive_exponent() {
    for gamma in [0.1, 0.5, 1.0, 2.2, 7.0] {
        let curve = GammaCurve::from_samples(samples_for(gamma)).unwrap();
        assert_eq!(curve.evaluate(0), 0);
        assert_eq!(curve.evaluate(UNIT), UNIT);
    }
}

#[test]
fn evaluate_never_falls() {
    for gamma in [0.3, 1.0, 2.2] {
        let curve = GammaCurve::from_samples(samples_for(gamma)).unwrap();
        let mut last = 0;
        let mut x = 0;
        while x <= UNIT {
            let y = curve.evaluate(x);
            assert!(y >= last);
            assert!(y <= UNIT);
            last = y;
            x += 997;
        }
    }
}

#[test]
fn evaluate_interpolates_between_samples() {
    let curve = GammaCurve::from_samples(samples_for(2.0)).unwrap();
    // on a sample
    assert_eq!(curve.evaluate(500_000), 250_000);
    // halfway between the samples 250000 and 316406
    assert_eq!(curve.evaluate(531_250), 283_203);
    // a quarter of the way from 0 to 3906
    assert_eq!(curve.evaluate(15_625), 976);
}

#[test]
fn evaluate_past_one_whole_reads_one_whole() {
    let curve = GammaCurve::from_samples(samples_for(2.2)).unwrap();
    assert_eq!(curve.evaluate(UNIT + 1), UNIT);
    assert_eq!(curve.evaluate(u32::MAX), UNIT);
}

#[test]
fn from_samples_refuses_what_is_no_curve() {
    let good = samples_for(2.2);
    assert!(GammaCurve::from_samples(good.clone()).is_some());

    let mut short = good.clone();
    short.pop();
    assert!(GammaCurve::from_samples(short).is_none());

    let mut long = good.clone();
    long.push(UNIT);
    assert!(GammaCurve::from_samples(long).is_none());

    let mut lifted = good.clone();
    lifted[0] = 1;
    assert!(GammaCurve::from_samples(lifted).is_none());

    let mut low_end = good.clone();
    low_end[16] = UNIT - 1;
    assert!(GammaCurve::from_samples(low_end).is_none());

    let mut dip = good.clone();
    dip[8] = dip[7] - 1;
    assert!(GammaCurve::from_samples(dip).is_none());

    assert!(GammaCurve::from_samples(Vec::new()).is_none());
    // exponent zero leaves a table that starts at one whole
    assert!(GammaCurve::from_samples(samples_for(0.0)).is_none());
}

#[test]
fn from_samples_keeps_the_samples() {
    let good = samples_for(0.5);
    let curve = GammaCurve::from_samples(good.clone()).unwrap();
    assert_eq!(curve.samples(), good);
}

#[test]
fn lerp_is_exact_at_both_ends() {
    assert_eq!(lerp(0, 10, 20), 10);
    assert_eq!(lerp(UNIT, 10, 20), 20);
    assert_eq!(lerp(0, 20, 10), 20);
    assert_eq!(lerp(UNIT, 20, 10), 10);
    assert_eq!(lerp(0, 0, u32::MAX), 0);
    assert_eq!(lerp(UNIT, 0, u32::MAX), u32::MAX);
}

#[test]
fn lerp_rounds_towards_the_start() {
    assert_eq!(lerp(500_000, 10, 20), 15);
    assert_eq!(lerp(500_000, 20, 10), 15);
    assert_eq!(lerp(500_000, 10, 11), 10);
    assert_eq!(lerp(500_000, 11, 10), 11);
    assert_eq!(lerp(123, 7, 7), 7);
}

#[test]
fn usable_exponents_are_finite_and_above_zero() {
    for gamma in [0.1f64, 1.0, 2.2, f64::MIN_POSITIVE, f64::MAX] {
        assert!(is_usable_exponent(gamma.to_bits()));
    }
    for gamma in [0.0f64, -0.0, -1.0, f64::INFINITY, f64::NEG_INFINITY, f64::NAN, -f64::NAN] {
        assert!(!is_usable_exponent(gamma.to_bits()));
    }
}
