use vstd::prelude::*;

verus! {

/// Seed constant exported with the program.
pub const SEED: &'static str = "anchor";

/// Precision multiplier for curve math (10^6 for 6-decimal tokens).
/// The curve itself is initialised with the number of decimals
/// (`CURVE_DECIMALS`), which expands to this precision.
pub const PRECISION: u32 = 1_000_000;

/// Number of decimals the pool's curve is initialised with.
pub const CURVE_DECIMALS: u8 = 6;

} // verus!
