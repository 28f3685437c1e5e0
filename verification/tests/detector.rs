use smack::detector::{Detector, HitEvent, Severity};
use smack::math::magnitude;

/// Run `n` samples of the given coordinates and collect the events.
fn feed(det: &mut Detector, n: usize, x: i64, y: i64, z: i64) -> Vec<HitEvent> {
    let mut events = Vec::new();
    for _ in 0..n {
        if let Some(e) = det.process(x, y, z) {
            events.push(e);
        }
    }
    events
}

/// A detector calibrated on a resting stream of exactly one gravity:
/// its baseline is exactly 10_000 and it is armed.
fn calibrated() -> Detector {
    let mut det = Detector::new();
    let events = feed(&mut det, 100, 10_000, 0, 0);
    assert!(events.is_empty());
    det
}

#[test]
fn severity_names() {
    assert_eq!(Severity::Light.as_str(), "light");
    assert_eq!(Severity::Medium.as_str(), "medium");
    assert_eq!(Severity::Hard.as_str(), "hard");
}

#[test]
fn severity_undo_counts() {
    assert_eq!(Severity::Light.undos(), 1);
    assert_eq!(Severity::Medium.undos(), 3);
    assert_eq!(Severity::Hard.undos(), 5);
}

#[test]
fn magnitude_of_axis_aligned_sample() {
    assert_eq!(magnitude(30_000, 0, 0), 30_000);
    assert_eq!(magnitude(0, 0, -10_000), 10_000);
}

#[test]
fn magnitude_of_three_four_five_triangle() {
    assert_eq!(magnitude(30_000, 40_000, 0), 50_000);
    assert_eq!(magnitude(-30_000, 0, -40_000), 50_000);
}

#[test]
fn magnitude_rounds_down() {
    // sqrt(2) * 10_000 = 14142.13...
    assert_eq!(magnitude(10_000, 10_000, 0), 14_142);
}

#[test]
fn calibration_emits_nothing_even_for_impacts() {
    let mut det = Detector::new();
    let events = feed(&mut det, 100, 90_000, 0, 0);
    assert!(events.is_empty());
}

#[test]
fn idle_stream_emits_nothing() {
    // Constant magnitude of one gravity, well past calibration.
    let mut det = Detector::new();
    let events = feed(&mut det, 250, 10_000, 0, 0);
    assert!(events.is_empty());
}

#[test]
fn boundary_exactly_hard_threshold_is_medium() {
    let mut det = calibrated();
    // Excess of exactly 2.0 g does not reach the Hard tier.
    let e = det.process(30_000, 0, 0).expect("impact expected");
    assert_eq!(e.severity, Severity::Medium);
    assert_eq!(e.amplitude, 20_000);
}

#[test]
fn boundary_above_hard_threshold_is_hard() {
    let mut det = calibrated();
    let e = det.process(30_001, 0, 0).expect("impact expected");
    assert_eq!(e.severity, Severity::Hard);
    assert_eq!(e.amplitude, 20_001);
}

#[test]
fn boundary_exactly_medium_threshold_is_light() {
    let mut det = calibrated();
    let e = det.process(20_000, 0, 0).expect("impact expected");
    assert_eq!(e.severity, Severity::Light);
    assert_eq!(e.amplitude, 10_000);
}

#[test]
fn boundary_above_medium_threshold_is_medium() {
    let mut det = calibrated();
    let e = det.process(20_001, 0, 0).expect("impact expected");
    assert_eq!(e.severity, Severity::Medium);
    assert_eq!(e.amplitude, 10_001);
}

#[test]
fn boundary_exactly_light_threshold_is_no_event() {
    let mut det = calibrated();
    assert!(det.process(13_000, 0, 0).is_none());
}

#[test]
fn boundary_above_light_threshold_is_light() {
    let mut det = calibrated();
    let e = det.process(13_001, 0, 0).expect("impact expected");
    assert_eq!(e.severity, Severity::Light);
    assert_eq!(e.amplitude, 3_001);
}

#[test]
fn single_trigger_per_impact() {
    let mut det = calibrated();
    // One sharp impact: excess 2.5 g over the 1.0 g baseline.
    let e = det.process(35_000, 0, 0).expect("impact expected");
    assert_eq!(e.severity, Severity::Hard);
    assert_eq!(e.amplitude, 25_000);
    // The baseline drifted to 10_025; the next 50 samples sit in the
    // cooldown window and emit nothing, whatever their magnitude.
    let during_cooldown = feed(&mut det, 50, 10_025, 0, 0);
    assert!(during_cooldown.is_empty());
    // The 51st subsequent sample is armed again and triggers once it
    // exceeds the light threshold.
    let e = det.process(13_501, 0, 0).expect("impact expected");
    assert_eq!(e.severity, Severity::Light);
}

#[test]
fn cooldown_suppresses_even_hard_impacts() {
    let mut det = calibrated();
    assert!(det.process(35_000, 0, 0).is_some());
    // Ten enormous samples right after a hit: all swallowed.
    let events = feed(&mut det, 10, 90_000, 0, 0);
    assert!(events.is_empty());
}

#[test]
fn end_to_end_scenario() {
    // Calibrate with 150 resting samples of magnitude 1.0, then one
    // sample of magnitude 3.0 against the 1.0 baseline: exactly one
    // event of amplitude 2.0. An excess of exactly 2.0 sits on the
    // boundary, which strictly does not reach the Hard tier.
    let mut det = Detector::new();
    let calibration = feed(&mut det, 150, 10_000, 0, 0);
    assert!(calibration.is_empty());
    let e = det.process(30_000, 0, 0).expect("impact expected");
    assert_eq!(e.amplitude, 20_000);
    assert_eq!(e.severity, Severity::Medium);
    assert_eq!(e.severity.undos(), 3);
    // No further event without a new impact.
    let after = feed(&mut det, 60, 10_025, 0, 0);
    assert!(after.is_empty());
}
