use smack::detector::{HitEvent, Severity};
use smack::wire::{decimal_string, render_event};

#[test]
fn serialize_medium_event_exactly() {
    let e = HitEvent { severity: Severity::Medium, amplitude: 12_345 };
    assert_eq!(
        render_event(&e),
        "{\"severity\":\"medium\",\"amplitude\":1.2345,\"undos\":3}"
    );
}

#[test]
fn serialize_hard_event_exactly() {
    let e = HitEvent { severity: Severity::Hard, amplitude: 25_123 };
    assert_eq!(
        render_event(&e),
        "{\"severity\":\"hard\",\"amplitude\":2.5123,\"undos\":5}"
    );
}

#[test]
fn serialize_light_event_exactly() {
    let e = HitEvent { severity: Severity::Light, amplitude: 3_001 };
    assert_eq!(
        render_event(&e),
        "{\"severity\":\"light\",\"amplitude\":0.3001,\"undos\":1}"
    );
}

#[test]
fn serialize_pads_the_four_decimal_places() {
    let e = HitEvent { severity: Severity::Hard, amplitude: 20_000 };
    assert_eq!(
        render_event(&e),
        "{\"severity\":\"hard\",\"amplitude\":2.0000,\"undos\":5}"
    );
    let e = HitEvent { severity: Severity::Light, amplitude: 10_010 };
    assert_eq!(
        render_event(&e),
        "{\"severity\":\"light\",\"amplitude\":1.0010,\"undos\":1}"
    );
}

#[test]
fn serialize_large_amplitude() {
    let e = HitEvent { severity: Severity::Hard, amplitude: 1_234_567_890 };
    assert_eq!(
        render_event(&e),
        "{\"severity\":\"hard\",\"amplitude\":123456.7890,\"undos\":5}"
    );
}

#[test]
fn serialization_is_deterministic() {
    // Every subscriber of one event receives byte-identical records.
    let e = HitEvent { severity: Severity::Medium, amplitude: 9_999 };
    assert_eq!(render_event(&e), render_event(&e));
}

#[test]
fn decimal_rendering() {
    assert_eq!(decimal_string(0), "0");
    assert_eq!(decimal_string(7), "7");
    assert_eq!(decimal_string(10), "10");
    assert_eq!(decimal_string(987_654_321), "987654321");
}
