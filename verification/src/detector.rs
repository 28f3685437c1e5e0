//! Stateful online impact classifier.
//!
//! The detector consumes one acceleration sample at a time, maintains an
//! adaptive baseline by an exponential moving average, and emits at most
//! one severity-classified event per sample. All quantities are
//! fixed-point integers in ten-thousandths of a standard gravity; the
//! moving averages round to nearest.

use vstd::prelude::*;

use crate::math::{magnitude, spec_magnitude, COORD_MAX, MAG_MAX};

verus! {

/// Fixed-point scale: ten-thousandths of a standard gravity, so 1.0 g
/// is represented as 10_000.
pub const SCALE: u64 = 10_000;

/// Number of samples of the calibration phase.
pub const CALIBRATION_SAMPLES: u64 = 100;

/// Number of samples during which emission is suppressed after an event.
pub const COOLDOWN_SAMPLES: u32 = 50;

/// A magnitude excess above this (strictly) is at least a light impact (0.3 g).
pub const LIGHT_THRESHOLD: u64 = 3_000;

/// A magnitude excess above this (strictly) is at least a medium impact (1.0 g).
pub const MEDIUM_THRESHOLD: u64 = 10_000;

/// A magnitude excess above this (strictly) is a hard impact (2.0 g).
pub const HARD_THRESHOLD: u64 = 20_000;

/// Impact severity tier, each mapped to a fixed undo count.
#[derive(Clone, Copy, Debug, PartialEq, Eq, Structural)]
pub enum Severity {
    Light,
    Medium,
    Hard,
}

impl Severity {
    /// Lower-case name of the tier, as it appears on the wire.
    pub open spec fn spec_name(self) -> Seq<char> {
        match self {
            Severity::Light => "light"@,
            Severity::Medium => "medium"@,
            Severity::Hard => "hard"@,
        }
    }

    /// Undo count of the tier: 1, 3 or 5.
    pub open spec fn spec_undos(self) -> u32 {
        match self {
            Severity::Light => 1,
            Severity::Medium => 3,
            Severity::Hard => 5,
        }
    }

    pub fn as_str(&self) -> (r: &'static str)
        ensures
            r@ == self.spec_name(),
    {
        match self {
            Severity::Light => "light",
            Severity::Medium => "medium",
            Severity::Hard => "hard",
        }
    }

    pub fn undos(&self) -> (r: u32)
        ensures
            r == self.spec_undos(),
    {
        match self {
            Severity::Light => 1,
            Severity::Medium => 3,
            Severity::Hard => 5,
        }
    }
}

/// One detected impact: its tier and the amount (fixed-point) by which
/// the sample magnitude exceeded the baseline at detection time.
#[derive(Clone, Copy, Debug, PartialEq, Eq, Structural)]
pub struct HitEvent {
    pub severity: Severity,
    pub amplitude: u64,
}

/// Mathematical state of a detector.
pub ghost struct DetectorModel {
    pub baseline: int,
    pub samples_seen: int,
    pub cooldown: int,
}

impl DetectorModel {
    /// Invariant established by `Detector::new` and preserved by every step.
    pub open spec fn wf(self) -> bool {
        &&& 1 <= self.baseline <= MAG_MAX
        &&& 0 <= self.samples_seen <= CALIBRATION_SAMPLES
        &&& 0 <= self.cooldown <= COOLDOWN_SAMPLES
    }
}

/// Fast moving average used while calibrating: 0.9 * b + 0.1 * m,
/// rounded to nearest.
pub open spec fn ema_fast(b: int, m: int) -> int {
    (9 * b + m + 5) / 10
}

/// Slow moving average used once calibrated: 0.999 * b + 0.001 * m,
/// rounded to nearest.
pub open spec fn ema_slow(b: int, m: int) -> int {
    (999 * b + m + 500) / 1000
}

/// Severity of a magnitude excess. All comparisons are strict: a value
/// exactly at a boundary does not qualify for the higher tier.
pub open spec fn spec_classify(excess: int) -> Option<Severity> {
    if excess > HARD_THRESHOLD {
        Some(Severity::Hard)
    } else if excess > MEDIUM_THRESHOLD {
        Some(Severity::Medium)
    } else if excess > LIGHT_THRESHOLD {
        Some(Severity::Light)
    } else {
        None
    }
}

/// One step of the detector on a sample of magnitude `mag`: the next
/// state, and the emitted event as a (severity, amplitude) pair.
///
/// While calibrating, the baseline settles fast and nothing is emitted.
/// While cooling down, the counter falls by one, the baseline drifts
/// slowly and nothing is emitted. Once armed, the excess over the
/// pre-update baseline is classified; on a classification the cooldown
/// is rearmed in full.
pub open spec fn spec_step(s: DetectorModel, mag: int) -> (DetectorModel, Option<(Severity, int)>) {
    if s.samples_seen < CALIBRATION_SAMPLES {
        (
            DetectorModel {
                baseline: ema_fast(s.baseline, mag),
                samples_seen: s.samples_seen + 1,
                cooldown: s.cooldown,
            },
            None,
        )
    } else if s.cooldown > 0 {
        (
            DetectorModel {
                baseline: ema_slow(s.baseline, mag),
                samples_seen: s.samples_seen,
                cooldown: s.cooldown - 1,
            },
            None,
        )
    } else {
        let excess = mag - s.baseline;
        match spec_classify(excess) {
            Some(sev) => (
                DetectorModel {
                    baseline: ema_slow(s.baseline, mag),
                    samples_seen: s.samples_seen,
                    cooldown: COOLDOWN_SAMPLES as int,
                },
                Some((sev, excess)),
            ),
            None => (
                DetectorModel {
                    baseline: ema_slow(s.baseline, mag),
                    samples_seen: s.samples_seen,
                    cooldown: 0,
                },
                None,
            ),
        }
    }
}

/// The detector run on a whole sequence of magnitudes: the final state
/// and the sequence of emitted events, in order.
pub open spec fn spec_run(s: DetectorModel, mags: Seq<int>) -> (DetectorModel, Seq<(Severity, int)>)
    decreases mags.len(),
{
    if mags.len() == 0 {
        (s, Seq::empty())
    } else {
        let first = spec_step(s, mags[0]);
        let rest = spec_run(first.0, mags.drop_first());
        (
            rest.0,
            match first.1 {
                Some(e) => seq![e] + rest.1,
                None => rest.1,
            },
        )
    }
}

/// The (severity, amplitude) content of an emitted event.
pub open spec fn hit_view(r: Option<HitEvent>) -> Option<(Severity, int)> {
    match r {
        Some(e) => Some((e.severity, e.amplitude as int)),
        None => None,
    }
}

proof fn lemma_ema_fast_bounds(b: int, m: int)
    requires
        1 <= b <= MAG_MAX,
        0 <= m <= MAG_MAX,
    ensures
        1 <= ema_fast(b, m) <= MAG_MAX,
{
    assert(9 * b + m + 5 >= 10);
    assert(9 * b + m + 5 <= 10 * MAG_MAX + 5);
    assert((9 * b + m + 5) / 10 >= 1) by (nonlinear_arith)
        requires
            9 * b + m + 5 >= 10,
    ;
    assert((9 * b + m + 5) / 10 <= MAG_MAX) by (nonlinear_arith)
        requires
            9 * b + m + 5 <= 10 * MAG_MAX + 5,
    ;
}

proof fn lemma_ema_slow_bounds(b: int, m: int)
    requires
        1 <= b <= MAG_MAX,
        0 <= m <= MAG_MAX,
    ensures
        1 <= ema_slow(b, m) <= MAG_MAX,
{
    assert(999 * b + m + 500 >= 1000);
    assert(999 * b + m + 500 <= 1000 * MAG_MAX + 500);
    assert((999 * b + m + 500) / 1000 >= 1) by (nonlinear_arith)
        requires
            999 * b + m + 500 >= 1000,
    ;
    assert((999 * b + m + 500) / 1000 <= MAG_MAX) by (nonlinear_arith)
        requires
            999 * b + m + 500 <= 1000 * MAG_MAX + 500,
    ;
}

/// One step preserves the detector invariant.
pub proof fn lemma_step_wf(s: DetectorModel, mag: int)
    requires
        s.wf(),
        0 <= mag <= MAG_MAX,
    ensures
        spec_step(s, mag).0.wf(),
{
    if s.samples_seen < CALIBRATION_SAMPLES {
        lemma_ema_fast_bounds(s.baseline, mag);
    } else {
        lemma_ema_slow_bounds(s.baseline, mag);
    }
}

/// Threshold-based impact detector with an adaptive baseline.
pub struct Detector {
    baseline: u64,
    samples_seen: u64,
    cooldown_remaining: u32,
}

impl View for Detector {
    type V = DetectorModel;

    closed spec fn view(&self) -> DetectorModel {
        DetectorModel {
            baseline: self.baseline as int,
            samples_seen: self.samples_seen as int,
            cooldown: self.cooldown_remaining as int,
        }
    }
}

impl Detector {
    /// A fresh detector: baseline at one gravity (the resting magnitude),
    /// calibration not yet begun, no cooldown pending.
    pub fn new() -> (d: Detector)
        ensures
            d@ == (DetectorModel { baseline: SCALE as int, samples_seen: 0, cooldown: 0 }),
            d@.wf(),
    {
        Detector { baseline: SCALE, samples_seen: 0, cooldown_remaining: 0 }
    }

    /// Process a single accelerometer sample (coordinates in
    /// ten-thousandths of a gravity). Returns the detected impact, if any:
    /// the state moves and the event is emitted exactly as `spec_step`
    /// says on the sample's magnitude.
    pub fn process(&mut self, x: i64, y: i64, z: i64) -> (r: Option<HitEvent>)
        requires
            old(self)@.wf(),
            -COORD_MAX <= x <= COORD_MAX,
            -COORD_MAX <= y <= COORD_MAX,
            -COORD_MAX <= z <= COORD_MAX,
        ensures
            final(self)@ == spec_step(old(self)@, spec_magnitude(x as int, y as int, z as int)).0,
            hit_view(r) == spec_step(old(self)@, spec_magnitude(x as int, y as int, z as int)).1,
            final(self)@.wf(),
    {
        let mag = magnitude(x, y, z);
        proof {
            lemma_step_wf(old(self)@, mag as int);
        }

        // Calibration period: let the baseline settle.
        if self.samples_seen < CALIBRATION_SAMPLES {
            self.baseline = (9 * self.baseline + mag + 5) / 10;
            self.samples_seen = self.samples_seen + 1;
            return None;
        }

        // Cooldown: ignore samples after a recent hit to avoid
        // multi-triggering, while still tracking the baseline slowly.
        if self.cooldown_remaining > 0 {
            self.cooldown_remaining = self.cooldown_remaining - 1;
            self.baseline = (999 * self.baseline + mag + 500) / 1000;
            return None;
        }

        let b = self.baseline;

        // Update the baseline slowly (tracks drift but not impacts).
        self.baseline = (999 * b + mag + 500) / 1000;

        let result = if mag > b && mag - b > HARD_THRESHOLD {
            Some(HitEvent { severity: Severity::Hard, amplitude: mag - b })
        } else if mag > b && mag - b > MEDIUM_THRESHOLD {
            Some(HitEvent { severity: Severity::Medium, amplitude: mag - b })
        } else if mag > b && mag - b > LIGHT_THRESHOLD {
            Some(HitEvent { severity: Severity::Light, amplitude: mag - b })
        } else {
            None
        };

        if result.is_some() {
            self.cooldown_remaining = COOLDOWN_SAMPLES;
        }

        result
    }
}

} // verus!
