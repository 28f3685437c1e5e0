//! Impact detection and distribution pipeline.
//!
//! A stream of triaxial acceleration samples is turned into discrete,
//! severity-classified impact events, which are serialized to a fixed
//! text wire format and fanned out to a set of live subscribers.
//!
//! All quantities are fixed-point integers in ten-thousandths of a
//! standard gravity (scale 10_000), which matches the four decimal
//! places of the wire format exactly.

pub mod detector;
pub mod laws;
pub mod math;
pub mod registry;
pub mod report;
pub mod wire;
