use wrela::wr_procgeo::{
    FoliageLodCounts, RedwoodFoliageBudget, RedwoodFoliageBuildError, RedwoodMeshBuildError,
    RedwoodMeshLodTier, TerrainChunkCoord, TerrainMeshBuildConfig,
};

#[test]
fn invalid_chunk_resolution_is_rejected() {
    let cache_resolution = 128;
    let error = TerrainMeshBuildConfig::new(cache_resolution)
        .validate(cache_resolution)
        .expect_err("oversized chunks should fail");

    assert!(error.contains("must be smaller than terrain resolution"));
}

#[test]
fn procgeo_chunk_resolution_rules() {
    assert_eq!(
        TerrainMeshBuildConfig::new(0).validate(128).expect_err("zero"),
        "chunk_resolution must be greater than zero"
    );
    assert_eq!(
        TerrainMeshBuildConfig::new(200).validate(128).expect_err("too big"),
        "chunk_resolution 200 must be smaller than terrain resolution 128"
    );
    assert_eq!(TerrainMeshBuildConfig::default().validate(128), Ok(TerrainMeshBuildConfig::new(16)));
    assert_eq!(TerrainChunkCoord::new(2, 3), TerrainChunkCoord { x: 2, y: 3 });
}

#[test]
fn procgeo_lod_tiers_and_errors() {
    let tiers = RedwoodMeshLodTier::all();
    assert_eq!(tiers.iter().map(|t| t.as_str()).collect::<Vec<_>>(), vec!["hero", "mid", "far"]);
    assert_eq!(RedwoodMeshLodTier::Far.as_index(), 2);
    assert_eq!(RedwoodMeshBuildError::invalid_config("no trees").to_string(), "no trees");
    assert_eq!(
        RedwoodFoliageBuildError::invalid_config("no cards").to_string(),
        "invalid foliage build config: no cards"
    );
}

#[test]
fn procgeo_foliage_budget_checks_cards_vertices_and_near_draw_calls() {
    let budget = RedwoodFoliageBudget::default();
    let fits = [
        FoliageLodCounts { card_count: 6200, vertex_count: 24800, estimated_draw_calls: 1 },
        FoliageLodCounts { card_count: 10, vertex_count: 40, estimated_draw_calls: 1 },
        FoliageLodCounts { card_count: 10, vertex_count: 40, estimated_draw_calls: 9 },
    ];
    assert!(budget.within(&fits));
    let mut over = fits;
    over[1].estimated_draw_calls = 2;
    assert!(!budget.within(&over));
    let mut over = fits;
    over[2].card_count = 4001;
    assert!(!budget.within(&over));
}
