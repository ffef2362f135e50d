use vstd::prelude::*;

use vstd::wrapping::u64_specs;

use crate::wr_core::{CrateBoundary, CrateEntryPoint, entry_card};
use crate::wr_world_seed::{SPLITMIX_GAMMA, splitmix_output};

verus! {

/// The entry point of the math crate: a subsystem, not integration-only.
pub fn init_entrypoint() -> (r: CrateEntryPoint)
    ensures
        entry_card(r, "wr_math"@, CrateBoundary::Subsystem, false),
{
    CrateEntryPoint::new("wr_math", CrateBoundary::Subsystem, false)
}

/// Mixes a value into a seed: the SplitMix64 output of the seed xor the value times the
/// SplitMix64 increment (modulo `2^64`).
pub open spec fn mixed_seed(seed: u64, value: u64) -> u64 {
    splitmix_output(seed ^ u64_specs::wrapping_mul(value, SPLITMIX_GAMMA))
}

/// Mixes `value` into `seed`, as `mixed_seed` describes.
pub fn mix_seed(seed: u64, value: u64) -> (r: u64)
    ensures
        r == mixed_seed(seed, value),
{
    let mut state = seed ^ value.wrapping_mul(0x9E3779B97F4A7C15);
    state = state ^ (state >> 30);
    state = state.wrapping_mul(0xBF58476D1CE4E5B9);
    state = state ^ (state >> 27);
    state = state.wrapping_mul(0x94D049BB133111EB);
    state ^ (state >> 31)
}

} // verus!
