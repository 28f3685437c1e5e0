//! Global properties of the detector, proved over its step semantics.

use vstd::prelude::*;

use crate::detector::{
    ema_fast, ema_slow, lemma_step_wf, spec_run, spec_step, DetectorModel, CALIBRATION_SAMPLES,
    COOLDOWN_SAMPLES, LIGHT_THRESHOLD,
};
use crate::math::MAG_MAX;

verus! {

/// A constant stream at the current baseline is a fixed point of both
/// moving averages.
proof fn lemma_ema_fixed_point(b: int)
    requires
        b >= 0,
    ensures
        ema_fast(b, b) == b,
        ema_slow(b, b) == b,
{
    assert((10 * b + 5) / 10 == b) by (nonlinear_arith)
        requires
            b >= 0,
    ;
    assert((1000 * b + 500) / 1000 == b) by (nonlinear_arith)
        requires
            b >= 0,
    ;
}

/// Idle stability: a constant-magnitude stream at the detector's own
/// baseline (for instance one standard gravity, at rest, against the
/// resting baseline) never emits an event, in any phase and for any
/// stream length, and leaves the baseline unchanged.
pub proof fn lemma_idle_stability(s: DetectorModel, mags: Seq<int>)
    requires
        s.wf(),
        forall|i: int| 0 <= i < mags.len() ==> mags[i] == s.baseline,
    ensures
        spec_run(s, mags).1.len() == 0,
        spec_run(s, mags).0.baseline == s.baseline,
        spec_run(s, mags).0.wf(),
    decreases mags.len(),
{
    if mags.len() > 0 {
        let m = mags[0];
        lemma_ema_fixed_point(s.baseline);
        lemma_step_wf(s, m);
        let next = spec_step(s, m).0;
        assert(next.baseline == s.baseline);
        assert(spec_step(s, m).1 is None);
        assert(forall|i: int|
            0 <= i < mags.drop_first().len() ==> mags.drop_first()[i] == next.baseline);
        lemma_idle_stability(next, mags.drop_first());
    }
}

/// While the cooldown covers the stream, no event is emitted, whatever
/// the magnitudes are; the counter falls by exactly one per sample.
pub proof fn lemma_cooldown_suppression(s: DetectorModel, mags: Seq<int>)
    requires
        s.wf(),
        s.samples_seen == CALIBRATION_SAMPLES,
        mags.len() <= s.cooldown,
        forall|i: int| 0 <= i < mags.len() ==> 0 <= #[trigger] mags[i] <= MAG_MAX,
    ensures
        spec_run(s, mags).1.len() == 0,
        spec_run(s, mags).0.cooldown == s.cooldown - mags.len(),
        spec_run(s, mags).0.samples_seen == CALIBRATION_SAMPLES,
        spec_run(s, mags).0.wf(),
    decreases mags.len(),
{
    if mags.len() > 0 {
        let m = mags[0];
        lemma_step_wf(s, m);
        let next = spec_step(s, m).0;
        assert(spec_step(s, m).1 is None);
        assert(forall|i: int|
            0 <= i < mags.drop_first().len() ==> 0 <= #[trigger] mags.drop_first()[i] <= MAG_MAX);
        lemma_cooldown_suppression(next, mags.drop_first());
    }
}

/// Single trigger per impact: when an armed detector emits an event, the
/// cooldown is rearmed in full, the following `COOLDOWN_SAMPLES` samples
/// emit nothing whatever their magnitudes, and the sample after those is
/// armed again: it emits exactly when its magnitude exceeds the then
/// current baseline by more than the light threshold.
pub proof fn lemma_single_trigger_per_impact(
    s: DetectorModel,
    m0: int,
    mags: Seq<int>,
    m1: int,
)
    requires
        s.wf(),
        s.samples_seen == CALIBRATION_SAMPLES,
        s.cooldown == 0,
        0 <= m0 <= MAG_MAX,
        spec_step(s, m0).1 is Some,
        mags.len() == COOLDOWN_SAMPLES,
        forall|i: int| 0 <= i < mags.len() ==> 0 <= #[trigger] mags[i] <= MAG_MAX,
        0 <= m1 <= MAG_MAX,
    ensures
        spec_step(s, m0).0.cooldown == COOLDOWN_SAMPLES,
        spec_run(spec_step(s, m0).0, mags).1.len() == 0,
        spec_run(spec_step(s, m0).0, mags).0.cooldown == 0,
        spec_step(spec_run(spec_step(s, m0).0, mags).0, m1).1 is Some <==> m1
            - spec_run(spec_step(s, m0).0, mags).0.baseline > LIGHT_THRESHOLD,
{
    lemma_step_wf(s, m0);
    let armed = spec_step(s, m0).0;
    lemma_cooldown_suppression(armed, mags);
}

} // verus!

