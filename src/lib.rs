//! Verified core of a Monte Carlo localisation filter.
//!
//! The pose arithmetic of the filter is floating point and stays with the
//! caller. What the filter decides (which particle is best, which landmark an
//! observation belongs to, which landmarks are visible, how an ensemble is
//! relabelled and redrawn, when a weight is floored, how the filter moves
//! through its lifecycle) is stated and proved here over integers.
//!
//! Quantities that are compared are handed over as order keys: `u64` values
//! whose integer order is the order of the quantities. For a non-negative,
//! non-NaN `f64` its IEEE-754 bit pattern (`to_bits`) is such a key, once
//! `-0.0` is mapped to `0`.

pub mod association;
pub mod ensemble;
pub mod lifecycle;
pub mod scoring;
pub mod select;
