//! Decoding of raw IMU HID reports into acceleration samples.
//!
//! A report is a fixed-length byte record; three little-endian 32-bit
//! accelerations in Q16 fixed point (65_536ths of a gravity) sit at a
//! fixed offset. They are rescaled to the detector's fixed point of
//! ten-thousandths of a gravity. A decimator keeps one report in eight,
//! reducing the raw rate to the detector's nominal rate.

use vstd::arithmetic::div_mod::lemma_div_is_ordered;
use vstd::prelude::*;

use crate::math::COORD_MAX;

verus! {

/// Byte length of one IMU HID report.
pub const IMU_REPORT_LEN: usize = 22;

/// Offset of the acceleration words inside a report.
pub const IMU_DATA_OFF: usize = 6;

/// One raw report in `IMU_DECIMATION` is kept.
pub const IMU_DECIMATION: u32 = 8;

/// Denominator of the sensor's Q16 fixed point: one gravity.
pub const ACCEL_SCALE: u64 = 65536;

/// One triaxial acceleration sample, each coordinate in ten-thousandths
/// of a standard gravity.
#[derive(Clone, Copy, Debug, PartialEq, Eq, Structural)]
pub struct Sample {
    pub x: i64,
    pub y: i64,
    pub z: i64,
}

/// The unsigned value of four little-endian bytes.
pub open spec fn spec_le_u32(b0: int, b1: int, b2: int, b3: int) -> int {
    b0 + 0x100 * b1 + 0x10000 * b2 + 0x1000000 * b3
}

/// The two's-complement value of four little-endian bytes.
pub open spec fn spec_le_i32(b0: int, b1: int, b2: int, b3: int) -> int {
    if spec_le_u32(b0, b1, b2, b3) < 0x8000_0000 {
        spec_le_u32(b0, b1, b2, b3)
    } else {
        spec_le_u32(b0, b1, b2, b3) - 0x1_0000_0000
    }
}

/// A raw Q16 acceleration rescaled to ten-thousandths of a gravity,
/// truncated toward zero.
pub open spec fn spec_q16_to_fixed(raw: int) -> int {
    if raw >= 0 {
        (raw * 10000) / (ACCEL_SCALE as int)
    } else {
        -((-raw * 10000) / (ACCEL_SCALE as int))
    }
}

/// The sample a well-formed report decodes to.
pub open spec fn spec_decode(report: Seq<u8>) -> Sample {
    let o = IMU_DATA_OFF as int;
    Sample {
        x: spec_q16_to_fixed(
            spec_le_i32(
                report[o] as int,
                report[o + 1] as int,
                report[o + 2] as int,
                report[o + 3] as int,
            ),
        ) as i64,
        y: spec_q16_to_fixed(
            spec_le_i32(
                report[o + 4] as int,
                report[o + 5] as int,
                report[o + 6] as int,
                report[o + 7] as int,
            ),
        ) as i64,
        z: spec_q16_to_fixed(
            spec_le_i32(
                report[o + 8] as int,
                report[o + 9] as int,
                report[o + 10] as int,
                report[o + 11] as int,
            ),
        ) as i64,
    }
}

/// The signed acceleration of four little-endian bytes.
fn read_le_i32(b0: u8, b1: u8, b2: u8, b3: u8) -> (r: i64)
    ensures
        r == spec_le_i32(b0 as int, b1 as int, b2 as int, b3 as int),
        -0x8000_0000 <= r < 0x8000_0000,
{
    let u: u32 = b0 as u32 + 0x100 * (b1 as u32) + 0x10000 * (b2 as u32) + 0x1000000 * (b3 as u32);
    if u < 0x8000_0000 {
        u as i64
    } else {
        (u as i64) - 0x1_0000_0000
    }
}

/// Rescale one raw Q16 acceleration to ten-thousandths of a gravity.
/// Any 32-bit raw value lands well within the coordinate range the
/// detector accepts.
fn q16_to_fixed(raw: i64) -> (r: i64)
    requires
        -0x8000_0000 <= raw < 0x8000_0000,
    ensures
        r == spec_q16_to_fixed(raw as int),
        -COORD_MAX <= r <= COORD_MAX,
{
    if raw >= 0 {
        let scaled: u64 = (raw as u64) * 10000;
        let v = scaled / ACCEL_SCALE;
        proof {
            lemma_div_is_ordered(scaled as int, 0x8000_0000int * 10000, ACCEL_SCALE as int);
        }
        v as i64
    } else {
        let neg: u64 = (-raw) as u64;
        let scaled: u64 = neg * 10000;
        let v = scaled / ACCEL_SCALE;
        proof {
            lemma_div_is_ordered(scaled as int, 0x8000_0000int * 10000, ACCEL_SCALE as int);
        }
        -(v as i64)
    }
}

/// Decode one raw HID report: a report of the right length yields the
/// sample its bytes carry, any other length yields nothing.
pub fn decode_report(report: &[u8]) -> (r: Option<Sample>)
    ensures
        r is Some <==> report@.len() == IMU_REPORT_LEN,
        report@.len() == IMU_REPORT_LEN ==> r == Some(spec_decode(report@)),
        r is Some ==> {
            let s = r->Some_0;
            -COORD_MAX <= s.x <= COORD_MAX && -COORD_MAX <= s.y <= COORD_MAX && -COORD_MAX <= s.z
                <= COORD_MAX
        },
{
    if report.len() != IMU_REPORT_LEN {
        return None;
    }
    let o = IMU_DATA_OFF;
    let x = q16_to_fixed(read_le_i32(report[o], report[o + 1], report[o + 2], report[o + 3]));
    let y = q16_to_fixed(
        read_le_i32(report[o + 4], report[o + 5], report[o + 6], report[o + 7]),
    );
    let z = q16_to_fixed(
        read_le_i32(report[o + 8], report[o + 9], report[o + 10], report[o + 11]),
    );
    Some(Sample { x, y, z })
}

/// Decimation counter: keeps one report in `IMU_DECIMATION`.
pub struct Decimator {
    counter: u32,
}

impl Decimator {
    /// Reports seen since the last one kept.
    pub closed spec fn count(self) -> int {
        self.counter as int
    }

    pub open spec fn wf(self) -> bool {
        0 <= self.count() < IMU_DECIMATION
    }

    pub fn new() -> (d: Decimator)
        ensures
            d.count() == 0,
            d.wf(),
    {
        Decimator { counter: 0 }
    }

    /// Note one raw report; true exactly on every `IMU_DECIMATION`-th
    /// report, when the counter wraps to zero.
    pub fn note_report(&mut self) -> (keep: bool)
        requires
            old(self).wf(),
        ensures
            final(self).wf(),
            keep <==> old(self).count() == IMU_DECIMATION - 1,
            final(self).count() == if keep {
                0int
            } else {
                old(self).count() + 1
            },
    {
        self.counter = self.counter + 1;
        if self.counter < IMU_DECIMATION {
            false
        } else {
            self.counter = 0;
            true
        }
    }
}

} // verus!
