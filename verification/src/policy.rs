//! The speed policy: from a smoothed excess to the duty that the fans are
//! given. The response is linear over a fixed span of temperature, bent by
//! the gamma curve, and never lets the fans stop.

use vstd::prelude::*;
use crate::gamma::{
    evaluate_spec, lemma_between_samples, lemma_endpoints_exact, lemma_evaluate_monotonic,
    valid_samples, GammaCurve, UNIT,
};

verus! {

/// How far below a sensor's rated maximum the fans reach full speed, in
/// thousandths of a degree.
pub const ACTION_MARGIN: i64 = 5_000;

/// The span of temperature between the lowest and the full fan speed, in
/// thousandths of a degree.
pub const RANGE: i64 = 35_000;

/// The duty below which the fans are never driven, in millionths.
pub const MIN_FAN: u32 = 100_000;

/// The linear response: how far `excess` has come through the span, in
/// millionths, held within `[0, UNIT]`.
pub open spec fn speed_factor_spec(excess: int) -> int {
    let raw = ((excess + ACTION_MARGIN + RANGE) * (UNIT as int)) / (RANGE as int);
    if raw < 0 {
        0
    } else if raw > UNIT {
        UNIT as int
    } else {
        raw
    }
}

/// The duty for `excess` under the curve `s`: the floor, plus the bent
/// response scaled into what is left above the floor.
pub open spec fn duty_spec(s: Seq<u32>, excess: int) -> int {
    MIN_FAN + (evaluate_spec(s, speed_factor_spec(excess)) * (UNIT - MIN_FAN)) / (UNIT as int)
}

/// The linear response to `excess`, in millionths.
pub fn speed_factor_for_excess(excess: i64) -> (f: u32)
    ensures
        f == speed_factor_spec(excess as int),
        f <= UNIT,
{
    if excess <= -(ACTION_MARGIN + RANGE) {
        0
    } else if excess >= -ACTION_MARGIN {
        UNIT
    } else {
        let through: i64 = excess + ACTION_MARGIN + RANGE;
        assert(0 < through < 35_000);
        assert(through * (UNIT as i64) == through * 1_000_000);
        let raw: i64 = through * (UNIT as i64) / RANGE;
        assert(raw == (through * 1_000_000) / 35_000);
        raw as u32
    }
}

/// The duty for `excess` under `curve`, in millionths.
pub fn duty_for_excess(curve: &GammaCurve, excess: i64) -> (d: u32)
    ensures
        d == duty_spec(curve@, excess as int),
        MIN_FAN <= d <= UNIT,
{
    let factor: u32 = speed_factor_for_excess(excess);
    let bent: u64 = curve.evaluate(factor) as u64;
    assert(bent * ((UNIT - MIN_FAN) as u64) == bent * 900_000);
    let above: u64 = bent * ((UNIT - MIN_FAN) as u64) / (UNIT as u64);
    assert(above == (bent * 900_000) / 1_000_000);
    MIN_FAN + above as u32
}

/// The linear response never falls as the excess rises.
pub proof fn lemma_speed_factor_monotonic(e1: int, e2: int)
    requires
        e1 <= e2,
    ensures
        0 <= speed_factor_spec(e1) <= speed_factor_spec(e2) <= UNIT,
{
}

/// The duty never falls as the excess rises, and lies between the floor and
/// full scale.
pub proof fn lemma_duty_monotonic_bounded(s: Seq<u32>, e1: int, e2: int)
    requires
        valid_samples(s),
        e1 <= e2,
    ensures
        MIN_FAN <= duty_spec(s, e1) <= duty_spec(s, e2) <= UNIT,
{
    lemma_speed_factor_monotonic(e1, e2);
    let f1 = speed_factor_spec(e1);
    let f2 = speed_factor_spec(e2);
    lemma_evaluate_monotonic(s, f1, f2);
    lemma_between_samples(s, f1);
    lemma_between_samples(s, f2);
}

/// At or below forty degrees under the maximum the duty is the floor; at
/// or above five degrees under it, full scale.
pub proof fn lemma_duty_saturates(s: Seq<u32>, excess: int)
    requires
        valid_samples(s),
    ensures
        excess <= -(ACTION_MARGIN + RANGE) ==> duty_spec(s, excess) == MIN_FAN,
        excess >= -ACTION_MARGIN ==> duty_spec(s, excess) == UNIT,
{
    lemma_endpoints_exact(s);
    if excess <= -(ACTION_MARGIN + RANGE) {
        assert(speed_factor_spec(excess) == 0);
    }
    if excess >= -ACTION_MARGIN {
        assert(speed_factor_spec(excess) == UNIT);
    }
}

} // verus!
