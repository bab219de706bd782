//! Duty interpolator: maps a bounded logical input (a colour intensity or a
//! servo angle) onto a PWM duty window with truncating integer arithmetic.

use vstd::prelude::*;
use vstd::arithmetic::div_mod::{
    lemma_div_by_multiple, lemma_div_is_ordered, lemma_div_multiples_vanish,
};
use vstd::arithmetic::mul::{lemma_mul_inequality, lemma_mul_upper_bound};

verus! {

/// The servo's logical input domain: degrees from 0 to 180 inclusive.
pub const ANGLE_DOMAIN_MAX: u32 = 180;

/// The colour channels' logical input domain: one 8-bit intensity.
pub const COLOR_DOMAIN_MAX: u32 = 255;

/// Linear interpolation with floor semantics: maps `v` from `[0, domain_max]`
/// onto the duty window `[lo, hi]`.
pub open spec fn interpolate_spec(v: int, domain_max: int, lo: int, hi: int) -> int {
    v * (hi - lo) / domain_max + lo
}

/// Maps `v` in `[0, domain_max]` to a duty value in `[lo, hi]`, truncating as
/// fixed-point PWM duty registers do. Pure; never fails for in-domain input.
pub fn interpolate_in(v: u32, domain_max: u32, lo: u32, hi: u32) -> (duty: u32)
    requires
        0 < domain_max,
        v <= domain_max,
        lo <= hi,
    ensures
        duty == interpolate_spec(v as int, domain_max as int, lo as int, hi as int),
        lo <= duty <= hi,
{
    let span: u32 = hi - lo;
    proof {
        lemma_mul_upper_bound(v as int, u32::MAX as int, span as int, u32::MAX as int);
        lemma_mul_inequality(v as int, domain_max as int, span as int);
        lemma_div_is_ordered(
            v as int * span as int,
            domain_max as int * span as int,
            domain_max as int,
        );
        lemma_div_multiples_vanish(span as int, domain_max as int);
    }
    let scaled: u64 = (v as u64) * (span as u64) / (domain_max as u64);
    lo + (scaled as u32)
}

/// Maps an angle in `[0, 180]` degrees to a duty in the servo's pulse-width
/// window `[min, max]`.
pub fn interpolate(angle: u32, min: u32, max: u32) -> (duty: u32)
    requires
        angle <= ANGLE_DOMAIN_MAX,
        min <= max,
    ensures
        duty == interpolate_spec(angle as int, ANGLE_DOMAIN_MAX as int, min as int, max as int),
        min <= duty <= max,
{
    interpolate_in(angle, ANGLE_DOMAIN_MAX, min, max)
}

/// Law: interpolation is monotonically non-decreasing in its input.
pub proof fn lemma_interpolate_monotonic(a1: int, a2: int, domain_max: int, lo: int, hi: int)
    requires
        0 < domain_max,
        0 <= a1 <= a2,
        lo <= hi,
    ensures
        interpolate_spec(a1, domain_max, lo, hi) <= interpolate_spec(a2, domain_max, lo, hi),
{
    lemma_mul_inequality(a1, a2, hi - lo);
    lemma_div_is_ordered(a1 * (hi - lo), a2 * (hi - lo), domain_max);
}

/// Law: the ends of the input domain map exactly onto the ends of the duty
/// window.
pub proof fn lemma_interpolate_endpoints(domain_max: int, lo: int, hi: int)
    requires
        0 < domain_max,
        lo <= hi,
    ensures
        interpolate_spec(0, domain_max, lo, hi) == lo,
        interpolate_spec(domain_max, domain_max, lo, hi) == hi,
{
    lemma_div_multiples_vanish(0, domain_max);
    lemma_div_multiples_vanish(hi - lo, domain_max);
}

/// Law: when the duty window equals the input domain, interpolation is the
/// identity, so a colour byte becomes that very duty value.
pub proof fn lemma_interpolate_identity(v: int, domain_max: int)
    requires
        0 < domain_max,
        0 <= v,
    ensures
        interpolate_spec(v, domain_max, 0, domain_max) == v,
{
    lemma_div_by_multiple(v, domain_max);
}

} // verus!
