//! The gamma curve: seventeen samples of `y = x^gamma` over `[0, 1]`, read
//! back by linear interpolation.

use vstd::prelude::*;

verus! {

/// One whole, in the millionths in which fractions are counted.
pub const UNIT: u32 = 1_000_000;

/// Number of segments between the samples of a curve.
pub const SEGMENTS: usize = 16;

/// Number of samples of a curve.
pub const SAMPLES: usize = 17;

/// The bit pattern of positive infinity as a 64-bit IEEE-754 number: the
/// patterns of the finite numbers above zero are those below it, zero
/// excluded.
pub const POSITIVE_INFINITY_BITS: u64 = 0x7ff0_0000_0000_0000;

/// Whether `bits`, read as a 64-bit IEEE-754 number, is an exponent that a
/// curve can be built with: finite and above zero.
pub open spec fn usable_exponent(bits: u64) -> bool {
    0 < bits < POSITIVE_INFINITY_BITS
}

/// Whether a curve can be built with the exponent `bits`.
pub fn is_usable_exponent(bits: u64) -> (ok: bool)
    ensures
        ok == usable_exponent(bits),
{
    0 < bits && bits < POSITIVE_INFINITY_BITS
}

/// The point `frac` millionths of the way from `start` to `end`, rounded
/// towards `start`.
pub open spec fn lerp_spec(frac: int, start: int, end: int) -> int {
    if start == end {
        start
    } else if start < end {
        start + (frac * (end - start)) / (UNIT as int)
    } else {
        start - (frac * (start - end)) / (UNIT as int)
    }
}

/// What makes seventeen numbers a curve: it starts at zero, ends at one
/// whole, and never falls.
pub open spec fn valid_samples(s: Seq<u32>) -> bool {
    &&& s.len() == SAMPLES
    &&& s[0] == 0
    &&& s[SEGMENTS as int] == UNIT
    &&& forall|i: int, j: int| 0 <= i <= j < s.len() ==> s[i] <= s[j]
}

/// The samples of the curve with exponent one: `y = x`.
pub open spec fn identity_samples() -> Seq<u32> {
    Seq::new(SAMPLES as nat, |i: int| (i * (UNIT as int / SEGMENTS as int)) as u32)
}

/// Index of the sample at or below `x`, kept within the table.
pub open spec fn lower_index(x: int) -> int {
    let q = (x * SEGMENTS as int) / (UNIT as int);
    if q > SEGMENTS as int { SEGMENTS as int } else { q }
}

/// Index of the sample at or above `x`, kept within the table.
pub open spec fn upper_index(x: int) -> int {
    let t = x * SEGMENTS as int;
    let q = if t % (UNIT as int) == 0 { t / (UNIT as int) } else { t / (UNIT as int) + 1 };
    if q > SEGMENTS as int { SEGMENTS as int } else { q }
}

/// The curve `s` read at `x` millionths: the two samples around `x`,
/// interpolated by how far `x` lies past the lower one.
pub open spec fn evaluate_spec(s: Seq<u32>, x: int) -> int {
    let frac = (x * SEGMENTS as int) % (UNIT as int);
    lerp_spec(frac, s[lower_index(x)] as int, s[upper_index(x)] as int)
}

/// Interpolates between `start` and `end`; exact at both ends.
pub fn lerp(frac: u32, start: u32, end: u32) -> (r: u32)
    requires
        frac <= UNIT,
    ensures
        r == lerp_spec(frac as int, start as int, end as int),
        start <= end ==> start <= r <= end,
        end <= start ==> end <= r <= start,
{
    if start == end {
        start
    } else if start < end {
        let span: u64 = (end - start) as u64;
        proof {
            lemma_scaled_part(frac as int, span as int);
        }
        let step: u64 = (frac as u64) * span / (UNIT as u64);
        start + step as u32
    } else {
        let span: u64 = (start - end) as u64;
        proof {
            lemma_scaled_part(frac as int, span as int);
        }
        let step: u64 = (frac as u64) * span / (UNIT as u64);
        start - step as u32
    }
}

/// A part of `span` is between nothing and all of it.
proof fn lemma_scaled_part(frac: int, span: int)
    requires
        0 <= frac <= UNIT,
        0 <= span,
    ensures
        0 <= frac * span <= (UNIT as int) * span,
        0 <= (frac * span) / (UNIT as int) <= span,
        frac == 0 ==> (frac * span) / (UNIT as int) == 0,
        frac == UNIT ==> (frac * span) / (UNIT as int) == span,
{
    assert(0 <= frac * span <= 1_000_000 * span) by (nonlinear_arith)
        requires
            0 <= frac <= 1_000_000,
            0 <= span,
    ;
    assert(0 <= (frac * span) / 1_000_000 <= span) by (nonlinear_arith)
        requires
            0 <= frac * span <= 1_000_000 * span,
    ;
    if frac == 0 {
        assert(frac * span == 0) by (nonlinear_arith)
            requires
                frac == 0,
        ;
    }
    if frac == UNIT {
        assert((frac * span) / 1_000_000 == span) by (nonlinear_arith)
            requires
                frac == 1_000_000,
        ;
    }
}

/// A gamma curve: the table through which the daemon reshapes its linear
/// response.
#[derive(Debug)]
pub struct GammaCurve {
    samples: Vec<u32>,
}

impl View for GammaCurve {
    type V = Seq<u32>;

    closed spec fn view(&self) -> Seq<u32> {
        self.samples@
    }
}

impl GammaCurve {
    #[verifier::type_invariant]
    spec fn well_formed(self) -> bool {
        valid_samples(self.samples@)
    }

    /// Takes seventeen samples as a curve, or refuses them: a table that
    /// does not start at zero, end at one whole and rise throughout is
    /// what an exponent that is not positive and finite leaves behind.
    pub fn from_samples(samples: Vec<u32>) -> (r: Option<GammaCurve>)
        ensures
            r is Some <==> valid_samples(samples@),
            r matches Some(c) ==> c@ == samples@,
    {
        if samples.len() != SAMPLES {
            return None;
        }
        if samples[0] != 0 || samples[SEGMENTS] != UNIT {
            return None;
        }
        let mut i: usize = 1;
        while i < SAMPLES
            invariant
                1 <= i <= SAMPLES,
                samples.len() == SAMPLES,
                forall|a: int, b: int| 0 <= a <= b < i ==> samples[a] <= samples[b],
            decreases SAMPLES - i,
        {
            if samples[i - 1] > samples[i] {
                return None;
            }
            i += 1;
        }
        Some(GammaCurve { samples })
    }

    /// The curve with exponent one.
    pub fn identity() -> (c: GammaCurve)
        ensures
            c@ == identity_samples(),
    {
        let mut samples: Vec<u32> = Vec::new();
        let mut i: u32 = 0;
        while i < 17
            invariant
                i <= 17,
                samples.len() == i,
                forall|k: int| 0 <= k < i ==> samples[k] == k * 62_500,
            decreases 17 - i,
        {
            samples.push(i * 62_500);
            i += 1;
        }
        assert(samples@ =~= identity_samples());
        GammaCurve { samples }
    }

    /// The samples of the curve, lowest first.
    pub fn samples(&self) -> (r: Vec<u32>)
        ensures
            r@ == self@,
            valid_samples(self@),
    {
        proof {
            use_type_invariant(self);
        }
        self.samples.clone()
    }

    /// Reads the curve at `x` millionths; an `x` past one whole reads as one
    /// whole.
    pub fn evaluate(&self, x: u32) -> (y: u32)
        ensures
            y == evaluate_spec(self@, x as int),
            y <= UNIT,
            valid_samples(self@),
    {
        proof {
            use_type_invariant(self);
        }
        let unit: u64 = UNIT as u64;
        let t: u64 = (x as u64) * (SEGMENTS as u64);
        let q: u64 = t / unit;
        let frac: u64 = t % unit;
        let above: u64 = if frac == 0 { q } else { q + 1 };
        let i0: usize = if q > SEGMENTS as u64 { SEGMENTS } else { q as usize };
        let i1: usize = if above > SEGMENTS as u64 { SEGMENTS } else { above as usize };
        lerp(frac as u32, self.samples[i0], self.samples[i1])
    }
}

/// The samples of the exponent-one curve form a valid table.
pub proof fn lemma_identity_valid()
    ensures
        valid_samples(identity_samples()),
{
}

/// A curve reads as nothing at nothing and as one whole at one whole,
/// exactly.
pub proof fn lemma_endpoints_exact(s: Seq<u32>)
    requires
        valid_samples(s),
    ensures
        evaluate_spec(s, 0) == 0,
        evaluate_spec(s, UNIT as int) == UNIT,
{
    assert(lower_index(0) == 0 && upper_index(0) == 0);
    assert(lower_index(UNIT as int) == 16 && upper_index(UNIT as int) == 16);
}

/// A reading lies between the two samples around it.
pub proof fn lemma_between_samples(s: Seq<u32>, x: int)
    requires
        valid_samples(s),
        0 <= x,
    ensures
        0 <= lower_index(x) <= upper_index(x) <= SEGMENTS,
        s[lower_index(x)] <= evaluate_spec(s, x) <= s[upper_index(x)],
{
    let t = x * 16;
    let frac = t % 1_000_000;
    let lo = s[lower_index(x)] as int;
    let hi = s[upper_index(x)] as int;
    assert(lo <= hi);
    lemma_scaled_part(frac, hi - lo);
}

/// The exponent-one curve reads every fraction as itself.
pub proof fn lemma_identity_exact(x: int)
    requires
        0 <= x <= UNIT,
    ensures
        evaluate_spec(identity_samples(), x) == x,
{
    let s = identity_samples();
    let t = x * 16;
    let q = t / 1_000_000;
    let frac = t % 1_000_000;
    let i0 = lower_index(x);
    let i1 = upper_index(x);
    assert(0 <= q <= 16);
    assert(i0 == q);
    assert(s[i0] == q * 62_500);
    if frac == 0 {
        assert(i1 == q);
        assert(16 * x == q * 1_000_000);
    } else {
        assert(i1 == q + 1);
        assert(s[i1] == (q + 1) * 62_500);
        assert(16 * x == q * 1_000_000 + frac);
        // frac is a multiple of sixteen, so a sixteenth of it is exact
        assert(frac % 16 == 0);
        let part = frac / 16;
        assert(frac == part * 16);
        assert(frac * 62_500 == part * 1_000_000);
        assert((part * 1_000_000) / 1_000_000 == part);
        assert(x == q * 62_500 + part);
    }
}

/// A curve never falls: a larger fraction reads at least as high.
pub proof fn lemma_evaluate_monotonic(s: Seq<u32>, x1: int, x2: int)
    requires
        valid_samples(s),
        0 <= x1 <= x2,
    ensures
        evaluate_spec(s, x1) <= evaluate_spec(s, x2),
{
    lemma_between_samples(s, x1);
    lemma_between_samples(s, x2);
    let t1 = x1 * 16;
    let t2 = x2 * 16;
    let q1 = t1 / 1_000_000;
    let q2 = t2 / 1_000_000;
    let f1 = t1 % 1_000_000;
    let f2 = t2 % 1_000_000;
    assert(q1 <= q2);
    if q1 >= 16 {
        // both read the last sample
        assert(lower_index(x1) == 16 && upper_index(x1) == 16);
        assert(lower_index(x2) == 16 && upper_index(x2) == 16);
    } else if q1 < q2 {
        assert(upper_index(x1) <= lower_index(x2));
    } else {
        assert(f1 <= f2);
        if f1 == 0 {
            assert(upper_index(x1) == lower_index(x2));
        } else {
            let lo = s[lower_index(x1)] as int;
            let hi = s[upper_index(x1)] as int;
            assert(lower_index(x2) == lower_index(x1));
            assert(upper_index(x2) == upper_index(x1));
            assert(lo <= hi);
            assert((f1 * (hi - lo)) / 1_000_000 <= (f2 * (hi - lo)) / 1_000_000)
                by (nonlinear_arith)
                requires
                    0 <= f1 <= f2,
                    0 <= hi - lo,
            ;
        }
    }
}

} // verus!
