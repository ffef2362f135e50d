use vstd::prelude::*;

pub mod config_packs;
pub mod telemetry;
pub mod tweaks;

verus! {

/// The architectural role a crate of the workspace plays.
#[derive(Debug, Clone, Copy, PartialEq, Eq, Structural)]
pub enum CrateBoundary {
    Subsystem,
    Composition,
    AppShell,
    Tooling,
}

/// Identity card that every workspace member exposes through `init_entrypoint`.
#[derive(Debug, Clone, Copy, PartialEq, Eq)]
pub struct CrateEntryPoint {
    pub crate_name: &'static str,
    pub boundary: CrateBoundary,
    pub integration_only: bool,
}

/// The entry point card with the given name, boundary and integration flag.
pub open spec fn entry_card(
    e: CrateEntryPoint,
    name: Seq<char>,
    boundary: CrateBoundary,
    integration_only: bool,
) -> bool {
    &&& e.crate_name@ == name
    &&& e.boundary == boundary
    &&& e.integration_only == integration_only
}

impl CrateEntryPoint {
    pub fn new(crate_name: &'static str, boundary: CrateBoundary, integration_only: bool) -> (r:
        Self)
        ensures
            r.crate_name == crate_name,
            r.boundary == boundary,
            r.integration_only == integration_only,
    {
        CrateEntryPoint { crate_name, boundary, integration_only }
    }
}

/// The entry point of the core crate: a subsystem, not integration-only.
pub fn init_entrypoint() -> (r: CrateEntryPoint)
    ensures
        entry_card(r, "wr_core"@, CrateBoundary::Subsystem, false),
{
    CrateEntryPoint::new("wr_core", CrateBoundary::Subsystem, false)
}

} // verus!
