use vstd::prelude::*;

pub mod artifact_paths;
pub mod contract;

use crate::wr_core::{CrateBoundary, CrateEntryPoint, entry_card};

verus! {

/// The entry point of the tools harness crate: a subsystem, not integration-only.
pub fn init_entrypoint() -> (r: CrateEntryPoint)
    ensures
        entry_card(r, "wr_tools_harness"@, CrateBoundary::Subsystem, false),
{
    CrateEntryPoint::new("wr_tools_harness", CrateBoundary::Subsystem, false)
}

} // verus!
