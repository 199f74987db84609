//! The decorative animator: a scalar phase that bounces between 0 and 1 as a
//! triangle wave, advanced once per frame, and the cosine ease-in-out
//! interpolation primitive built on it.
//!
//! The phase is scaled by `PHASE_SCALE`: 0 stands for 0.0 and 1000 for 1.0,
//! with a step of 16 per frame (0.016). Interpolation weights use the same
//! scale. The cosine curve itself, `(1 - cos(t*pi)) / 2`, is irrational and
//! floating point, so the caller computes the eased weight and hands it in;
//! everything from the weight on is exact integer arithmetic, and the
//! interpolation's endpoint and symmetry laws are proved of it.

use vstd::prelude::*;

verus! {

/// One phase or weight unit is 1/1000 of the interval from 0.0 to 1.0.
pub const PHASE_SCALE: i64 = 1000;

/// The phase moves 16 units (0.016) per frame.
pub const PHASE_STEP: i64 = 16;

/// A bounded phase and its direction of travel.
#[derive(Debug, Clone, Copy, PartialEq, Eq, Structural)]
pub struct AnimationPhase {
    pub t: i64,
    pub dt: i64,
}

/// The phase stays within its scale and always travels one step per frame.
pub open spec fn phase_wf(p: AnimationPhase) -> bool {
    &&& 0 <= p.t <= PHASE_SCALE
    &&& (p.dt == PHASE_STEP || p.dt == -PHASE_STEP)
}

/// The phase value after one frame: the step is added and clamped to the
/// scale, and the direction reverses at either end.
pub open spec fn next_t_spec(p: AnimationPhase) -> int {
    let raw = p.t + p.dt;
    if raw >= PHASE_SCALE {
        PHASE_SCALE as int
    } else if raw <= 0 {
        0
    } else {
        raw
    }
}

/// The direction after one frame.
pub open spec fn next_dt_spec(p: AnimationPhase) -> int {
    let raw = p.t + p.dt;
    if raw >= PHASE_SCALE {
        -PHASE_STEP as int
    } else if raw <= 0 {
        PHASE_STEP as int
    } else {
        p.dt as int
    }
}

impl AnimationPhase {
    /// The wave starts at 0, rising.
    pub fn new() -> (r: Self)
        ensures
            r.t == 0,
            r.dt == PHASE_STEP,
            phase_wf(r),
    {
        AnimationPhase { t: 0, dt: PHASE_STEP }
    }

    /// Advances the triangle wave by one frame: add the step, clamp to the
    /// ends of the scale, and reverse direction on reaching either end.
    pub fn advance(&mut self)
        requires
            phase_wf(*old(self)),
        ensures
            phase_wf(*final(self)),
            final(self).t == next_t_spec(*old(self)),
            final(self).dt == next_dt_spec(*old(self)),
    {
        let raw = self.t + self.dt;
        if raw >= PHASE_SCALE {
            self.t = PHASE_SCALE;
            self.dt = -PHASE_STEP;
        } else if raw <= 0 {
            self.t = 0;
            self.dt = PHASE_STEP;
        } else {
            self.t = raw;
        }
    }
}

/// The value of the interpolation from `v1` to `v2` at weight `w`, scaled by
/// `PHASE_SCALE`: at weight 0 it is `v1`, at full weight it is `v2`, and in
/// between it moves linearly in the weight.
pub open spec fn lerp_spec(v1: int, v2: int, w: int) -> int {
    v1 * PHASE_SCALE + (v2 - v1) * w
}

/// Linear interpolation from `v1` to `v2` at weight `w` (scale
/// `PHASE_SCALE`): the primitive both the marker fade and the eased sweep are
/// instances of. The result is scaled by `PHASE_SCALE`.
pub fn lerp(v1: i64, v2: i64, w: i64) -> (r: i64)
    requires
        -0x4000_0000_0000 <= v1 <= 0x4000_0000_0000,
        -0x4000_0000_0000 <= v2 <= 0x4000_0000_0000,
        0 <= w <= PHASE_SCALE,
    ensures
        r == lerp_spec(v1 as int, v2 as int, w as int),
{
    proof {
        assert((v2 - v1) * w <= 0x8000_0000_0000 * 1000 && (v2 - v1) * w >= -0x8000_0000_0000
            * 1000) by (nonlinear_arith)
            requires
                -0x8000_0000_0000 <= v2 - v1 <= 0x8000_0000_0000,
                0 <= w <= 1000,
        ;
    }
    v1 * PHASE_SCALE + (v2 - v1) * w
}

/// Cosine ease-in-out interpolation from `v1` to `v2`, given the eased weight
/// `w = (1 - cos(t*pi)) / 2` scaled by `PHASE_SCALE`. The cosine is computed
/// by the caller — it is the only part of the curve that is not exact integer
/// arithmetic — and the curve is linear in the eased weight. The result is
/// scaled by `PHASE_SCALE`.
pub fn coserp(v1: i64, v2: i64, w: i64) -> (r: i64)
    requires
        -0x4000_0000_0000 <= v1 <= 0x4000_0000_0000,
        -0x4000_0000_0000 <= v2 <= 0x4000_0000_0000,
        0 <= w <= PHASE_SCALE,
    ensures
        r == lerp_spec(v1 as int, v2 as int, w as int),
{
    lerp(v1, v2, w)
}

/// At weight 0 the interpolation sits at `v1`; at full weight it sits at
/// `v2` (both scaled by `PHASE_SCALE`).
pub proof fn lemma_coserp_endpoints(v1: int, v2: int)
    ensures
        lerp_spec(v1, v2, 0) == v1 * PHASE_SCALE,
        lerp_spec(v1, v2, PHASE_SCALE as int) == v2 * PHASE_SCALE,
{
    assert(v1 * 1000 + (v2 - v1) * 1000 == v2 * 1000) by (nonlinear_arith);
}

/// Swapping the endpoints at the same weight mirrors the value: the two
/// interpolations always sum to `v1 + v2` (scaled).
pub proof fn lemma_coserp_swap(v1: int, v2: int, w: int)
    ensures
        lerp_spec(v1, v2, w) + lerp_spec(v2, v1, w) == (v1 + v2) * PHASE_SCALE,
{
    assert(v1 * 1000 + (v2 - v1) * w + (v2 * 1000 + (v1 - v2) * w) == (v1 + v2) * 1000)
        by (nonlinear_arith);
}

/// Running the interpolation backwards retraces it: swapping the endpoints
/// and complementing the weight gives the same value. For the cosine ease
/// this is the identity `ease(1 - t) == 1 - ease(t)` carried to the values.
pub proof fn lemma_coserp_complement(v1: int, v2: int, w: int)
    ensures
        lerp_spec(v2, v1, PHASE_SCALE - w) == lerp_spec(v1, v2, w),
{
    assert(v2 * 1000 + (v1 - v2) * (1000 - w) == v1 * 1000 + (v2 - v1) * w) by (nonlinear_arith);
}

} // verus!
