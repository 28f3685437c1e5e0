//! Wire format of an impact event.
//!
//! Each event is one self-contained text record:
//! `{"severity":"<light|medium|hard>","amplitude":<fixed-point, 4 decimal
//! places>,"undos":<integer>}`. Field order, key names, decimal precision
//! and casing are fixed; the amplitude's four decimal places are exactly
//! the low four digits of its fixed-point value.

use vstd::prelude::*;

use crate::detector::{HitEvent, Severity, SCALE};

verus! {

/// Decimal digit character of a value below ten.
pub open spec fn spec_digit(d: int) -> char {
    if d == 0 {
        '0'
    } else if d == 1 {
        '1'
    } else if d == 2 {
        '2'
    } else if d == 3 {
        '3'
    } else if d == 4 {
        '4'
    } else if d == 5 {
        '5'
    } else if d == 6 {
        '6'
    } else if d == 7 {
        '7'
    } else if d == 8 {
        '8'
    } else {
        '9'
    }
}

/// Decimal digits of a non-negative value, most significant first, with
/// no leading zeros (a single zero for zero itself).
pub open spec fn spec_decimal(n: int) -> Seq<char>
    decreases n,
{
    if n < 10 {
        seq![spec_digit(n)]
    } else {
        spec_decimal(n / 10).push(spec_digit(n % 10))
    }
}

/// The amplitude as a decimal with exactly four places: the integer part
/// of the fixed-point value, a dot, and its last four digits.
pub open spec fn spec_amplitude(amp: int) -> Seq<char> {
    spec_decimal(amp / (SCALE as int)) + seq![
        '.',
        spec_digit(amp / 1000 % 10),
        spec_digit(amp / 100 % 10),
        spec_digit(amp / 10 % 10),
        spec_digit(amp % 10),
    ]
}

/// The full wire record of one event, without the terminating newline.
pub open spec fn spec_record(severity: Severity, amp: int) -> Seq<char> {
    "{\"severity\":\""@ + severity.spec_name() + "\",\"amplitude\":"@ + spec_amplitude(amp)
        + ",\"undos\":"@ + spec_decimal(severity.spec_undos() as int) + "}"@
}

/// The digit character of a value below ten.
fn digit_str(d: u64) -> (r: &'static str)
    requires
        d < 10,
    ensures
        r@ =~= seq![spec_digit(d as int)],
{
    proof {
        reveal_strlit("0");
        reveal_strlit("1");
        reveal_strlit("2");
        reveal_strlit("3");
        reveal_strlit("4");
        reveal_strlit("5");
        reveal_strlit("6");
        reveal_strlit("7");
        reveal_strlit("8");
        reveal_strlit("9");
    }
    if d == 0 {
        "0"
    } else if d == 1 {
        "1"
    } else if d == 2 {
        "2"
    } else if d == 3 {
        "3"
    } else if d == 4 {
        "4"
    } else if d == 5 {
        "5"
    } else if d == 6 {
        "6"
    } else if d == 7 {
        "7"
    } else if d == 8 {
        "8"
    } else {
        "9"
    }
}

/// Decimal rendering of a non-negative value.
pub fn decimal_string(n: u64) -> (r: String)
    ensures
        r@ == spec_decimal(n as int),
    decreases n,
{
    if n < 10 {
        String::from_str(digit_str(n))
    } else {
        let mut s = decimal_string(n / 10);
        s.append(digit_str(n % 10));
        proof {
            assert(s@ =~= spec_decimal(n as int));
        }
        s
    }
}

/// Serialize one event to its wire record (no terminating newline).
pub fn render_event(event: &HitEvent) -> (r: String)
    ensures
        r@ == spec_record(event.severity, event.amplitude as int),
{
    let amp = event.amplitude;
    let mut s = String::from_str("{\"severity\":\"");
    s.append(event.severity.as_str());
    s.append("\",\"amplitude\":");
    let int_part = decimal_string(amp / SCALE);
    s.append(int_part.as_str());
    s.append(".");
    s.append(digit_str(amp / 1000 % 10));
    s.append(digit_str(amp / 100 % 10));
    s.append(digit_str(amp / 10 % 10));
    s.append(digit_str(amp % 10));
    s.append(",\"undos\":");
    let undos = decimal_string(event.severity.undos() as u64);
    s.append(undos.as_str());
    s.append("}");
    proof {
        reveal_strlit(".");
        assert(s@ =~= spec_record(event.severity, event.amplitude as int));
    }
    s
}

} // verus!
