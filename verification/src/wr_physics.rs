use vstd::prelude::*;

use crate::wr_core::{CrateBoundary, CrateEntryPoint, entry_card};

verus! {

/// The entry point of the physics crate: a subsystem, not integration-only.
pub fn init_entrypoint() -> (r: CrateEntryPoint)
    ensures
        entry_card(r, "wr_physics"@, CrateBoundary::Subsystem, false),
{
    CrateEntryPoint::new("wr_physics", CrateBoundary::Subsystem, false)
}

} // verus!
