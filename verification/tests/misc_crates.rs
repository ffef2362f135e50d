use wrela::wr_core::CrateBoundary;
use wrela::wr_ecs::WorldSchedule;
use wrela::wr_procgeo::{
    RedwoodMeshLodTier, terrain_atlas_counts, terrain_chunk_count, terrain_chunk_indices,
    terrain_chunk_mesh_counts, terrain_chunk_span,
};
use wrela::wr_render_scene::RedwoodFoliageDebugSceneConfig;
use wrela::wr_telemetry::verification::artifact_component;
use wrela::wr_tools_ui::TweakUiFrameOutput;

#[test]
fn every_member_exposes_its_entrypoint() {
    let cards = [
        (wrela::wr_core::init_entrypoint(), "wr_core", CrateBoundary::Subsystem, false),
        (wrela::wr_math::init_entrypoint(), "wr_math", CrateBoundary::Subsystem, false),
        (wrela::wr_world_seed::init_entrypoint(), "wr_world_seed", CrateBoundary::Subsystem, false),
        (wrela::wr_ecs::init_entrypoint(), "wr_ecs", CrateBoundary::Subsystem, false),
        (wrela::wr_platform::init_entrypoint(), "wr_platform", CrateBoundary::Subsystem, false),
        (wrela::wr_render_api::init_entrypoint(), "wr_render_api", CrateBoundary::Subsystem, false),
        (wrela::wr_render_wgpu::init_entrypoint(), "wr_render_wgpu", CrateBoundary::Subsystem, false),
        (wrela::wr_render_scene::init_entrypoint(), "wr_render_scene", CrateBoundary::Subsystem, false),
        (wrela::wr_world_gen::init_entrypoint(), "wr_world_gen", CrateBoundary::Subsystem, false),
        (wrela::wr_procgeo::init_entrypoint(), "wr_procgeo", CrateBoundary::Subsystem, false),
        (wrela::wr_physics::init_entrypoint(), "wr_physics", CrateBoundary::Subsystem, false),
        (wrela::wr_tools_ui::init_entrypoint(), "wr_tools_ui", CrateBoundary::Subsystem, false),
        (wrela::wr_tools_harness::init_entrypoint(), "wr_tools_harness", CrateBoundary::Subsystem, false),
        (wrela::wr_telemetry::init_entrypoint(), "wr_telemetry", CrateBoundary::Subsystem, false),
        (wrela::wr_game::init_entrypoint(), "wr_game", CrateBoundary::Composition, true),
        (wrela::wr_headless::init_entrypoint(), "wr_headless", CrateBoundary::AppShell, true),
        (wrela::wr_agentd::init_entrypoint(), "wr_agentd", CrateBoundary::AppShell, true),
        (wrela::xtask::init_entrypoint(), "xtask", CrateBoundary::Tooling, false),
    ];
    for (card, name, boundary, integration_only) in cards {
        assert_eq!(card.crate_name, name);
        assert_eq!(card.boundary, boundary);
        assert_eq!(card.integration_only, integration_only);
    }
    assert_eq!(wrela::wr_agentd::target_runtime(), wrela::wr_game::init_entrypoint());
}

#[test]
fn ecs_schedules_run_in_a_stable_order() {
    let names = WorldSchedule::ordered().iter().map(|s| s.as_str()).collect::<Vec<_>>();
    assert_eq!(
        names,
        vec![
            "Startup",
            "FixedPrePhysics",
            "FixedPhysics",
            "FixedGameplay",
            "FixedPostGameplay",
            "Extract",
            "RenderPrep",
            "Shutdown",
        ]
    );
    assert_eq!(WorldSchedule::fixed_frame(), WorldSchedule::ordered()[1..5].to_vec());
    assert_eq!(WorldSchedule::render_frame(), vec![WorldSchedule::Extract, WorldSchedule::RenderPrep]);
}

#[test]
fn tools_ui_frame_output_reports_any_change() {
    let quiet = TweakUiFrameOutput { changed_keys: vec![], saved_path: None, reloaded_path: None };
    assert!(!quiet.is_changed());
    let saved = TweakUiFrameOutput { saved_path: Some("p.ron".to_owned()), ..quiet.clone() };
    assert!(saved.is_changed());
    let changed = TweakUiFrameOutput { changed_keys: vec!["world.fog".to_owned()], ..quiet };
    assert!(changed.is_changed());
}

#[test]
fn render_scene_foliage_defaults() {
    let config = RedwoodFoliageDebugSceneConfig::default();
    assert_eq!(config.lod, RedwoodMeshLodTier::Hero);
    assert_eq!(config.max_trees, 12);
    assert!(config.show_terrain && config.show_trunks);
}

#[test]
fn telemetry_artifact_component_slugs_labels() {
    assert_eq!(artifact_component("Process Contract!"), "process-contract");
    assert_eq!(artifact_component("  --nextest--list  "), "nextest-list");
    assert_eq!(artifact_component("***"), "unnamed");
    assert_eq!(artifact_component(""), "unnamed");
}

#[test]
fn artifact_component_never_names_a_labelled_input_unnamed() {
    assert_eq!(artifact_component("unnamed"), "un-named");
    assert_eq!(artifact_component("UNNAMED!"), "un-named");
    assert_eq!(artifact_component(" Unnamed "), "un-named");
    assert_eq!(artifact_component("unnamed-2"), "unnamed-2");
    assert_eq!(artifact_component("_./:-"), "unnamed");
    for label in ["a", "A b", "x/y:z", "  7  ", "unnamed", "Un.Named"] {
        let slug = artifact_component(label);
        assert_ne!(slug, "unnamed");
        let kept: String = label
            .chars()
            .filter(|c| c.is_ascii_alphanumeric())
            .map(|c| c.to_ascii_lowercase())
            .collect();
        assert_eq!(slug.replace('-', ""), kept);
        assert!(!slug.starts_with('-') && !slug.ends_with('-') && !slug.contains("--"));
    }
}

#[test]
fn terrain_chunks_cover_the_grid_and_alternate_diagonals() {
    assert_eq!(terrain_chunk_count(5, 2), 3);
    assert_eq!(terrain_chunk_count(4, 2), 2);
    assert_eq!(terrain_chunk_count(0, 16), 0);
    assert_eq!(terrain_chunk_span(5, 2, 0), (0, 2));
    assert_eq!(terrain_chunk_span(5, 2, 1), (2, 2));
    assert_eq!(terrain_chunk_span(5, 2, 2), (4, 1));

    assert_eq!(terrain_chunk_indices(2, 0, 2, 1), vec![0, 3, 1, 1, 3, 4, 1, 4, 5, 1, 5, 2]);
    assert_eq!(terrain_chunk_indices(4, 2, 1, 1), vec![0, 2, 1, 1, 2, 3]);
    assert_eq!(terrain_chunk_indices(1, 0, 1, 1), vec![0, 2, 3, 0, 3, 1]);
    let indices = terrain_chunk_indices(0, 0, 3, 2);
    assert_eq!(indices.len(), 36);
    assert!(indices.iter().all(|&i| i < 12));
}

#[test]
fn terrain_atlas_counts_sum_the_chunks() {
    assert_eq!(terrain_chunk_mesh_counts(2, 1), (6, 4));
    assert_eq!(terrain_chunk_mesh_counts(16, 16), (289, 512));
    assert_eq!(terrain_atlas_counts(5, 2), Some((9, 64, 50)));
    assert_eq!(terrain_atlas_counts(4, 2), Some((4, 36, 32)));
    assert_eq!(terrain_atlas_counts(0, 16), Some((0, 0, 0)));
    assert_eq!(terrain_atlas_counts(127, 16), Some((64, 135 * 135, 2 * 127 * 127)));
}
