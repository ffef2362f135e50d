use vstd::prelude::*;

use crate::wr_core::{CrateBoundary, CrateEntryPoint, entry_card};
use crate::wr_procgeo::RedwoodMeshLodTier;

verus! {

/// The entry point of the render scene crate: a subsystem, not integration-only.
pub fn init_entrypoint() -> (r: CrateEntryPoint)
    ensures
        entry_card(r, "wr_render_scene"@, CrateBoundary::Subsystem, false),
{
    CrateEntryPoint::new("wr_render_scene", CrateBoundary::Subsystem, false)
}

/// What the foliage debug scene shows: the level of detail, how many trees, and whether the
/// terrain and the trunks are drawn.
#[derive(Debug, Clone, Copy, PartialEq, Eq, Structural)]
pub struct RedwoodFoliageDebugSceneConfig {
    pub lod: RedwoodMeshLodTier,
    pub max_trees: usize,
    pub show_terrain: bool,
    pub show_trunks: bool,
}

impl Default for RedwoodFoliageDebugSceneConfig {
    fn default() -> (r: Self)
        ensures
            r == (RedwoodFoliageDebugSceneConfig {
                lod: RedwoodMeshLodTier::Hero,
                max_trees: 12,
                show_terrain: true,
                show_trunks: true,
            }),
    {
        RedwoodFoliageDebugSceneConfig {
            lod: RedwoodMeshLodTier::Hero,
            max_trees: 12,
            show_terrain: true,
            show_trunks: true,
        }
    }
}

} // verus!
