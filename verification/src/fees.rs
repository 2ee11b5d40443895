//! Basis-point constants shared by the fee computations.
use vstd::prelude::*;

verus! {

/// Basis-point scale: 10 000 bps is 100 %.
pub const BPS_SCALE: u32 = 10000;

/// Largest fee rate, in basis points, that the fee helpers accept.
pub const BPS_MAX: u32 = 10000;

} // verus!
