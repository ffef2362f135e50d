use wrela::string_map::StringMap;
use wrela::wr_core::config_packs::SeedConfigPack;
use wrela::wr_core::tweaks::{TweakEntries, TweakPack, TweakValue};
use wrela::wr_ecs::MetricReading;
use wrela::wr_game::{
    HeadlessScenarioSummary, run_headless_scenario, run_headless_scenario_with_config_packs,
    run_headless_scenario_with_tweak_pack,
};
use wrela::wr_telemetry::SeedInfo;
use wrela::wr_tools_harness::contract::{
    FailureKind, HARNESS_SCHEMA_VERSION, HarnessStatus, ScenarioActorSpawn, ScenarioAssertion,
    ScenarioAssertionResult, ScenarioRequest, ScriptedInput,
};

fn test_scenario(assertions: Vec<ScenarioAssertion>) -> ScenarioRequest {
    ScenarioRequest {
        schema_version: HARNESS_SCHEMA_VERSION.to_owned(),
        scenario_path: "scenarios/smoke/startup.ron".to_owned(),
        simulation_rate_hz: 60,
        fixed_steps: 1,
        seed: SeedInfo::new("hero_forest", "0xDEADBEEF"),
        spawned_actors: vec![ScenarioActorSpawn {
            actor_id: "player".to_owned(),
            actor_kind: "player_sword".to_owned(),
            seed_stream: Some("player".to_owned()),
        }],
        scripted_inputs: Vec::new(),
        assertions,
    }
}

fn test_assertion(metric: &str, comparator: &str, expected: f32, tolerance: Option<f32>) -> ScenarioAssertion {
    ScenarioAssertion {
        frame: Some(0),
        metric: metric.to_owned(),
        comparator: comparator.to_owned(),
        expected: expected.to_bits(),
        tolerance: tolerance.map(f32::to_bits),
    }
}

fn reading_as_f32(reading: MetricReading) -> f32 {
    match reading {
        MetricReading::Count(count) => count as f32,
        MetricReading::Tweak(TweakValue::Scalar(bits)) => f32::from_bits(bits),
        MetricReading::Tweak(TweakValue::Toggle(on)) => {
            if on {
                1.0
            } else {
                0.0
            }
        }
    }
}

fn judge(reading: MetricReading, assertion: &ScenarioAssertion, frame: u32) -> ScenarioAssertionResult {
    let actual = reading_as_f32(reading);
    let expected = f32::from_bits(assertion.expected);
    let tolerance = assertion.tolerance.map(f32::from_bits).unwrap_or(0.0);
    let passed = match assertion.comparator.as_str() {
        "eq" => (actual - expected).abs() <= tolerance,
        "ne" => (actual - expected).abs() > tolerance,
        "gt" => actual > expected,
        "gte" => actual >= expected,
        "lt" => actual < expected,
        "lte" => actual <= expected,
        _ => false,
    };
    ScenarioAssertionResult {
        metric: assertion.metric.clone(),
        comparator: assertion.comparator.clone(),
        frame,
        expected: assertion.expected,
        actual: Some(actual.to_bits()),
        tolerance: assertion.tolerance,
        passed,
        details: if passed { None } else { Some(format!("expected {expected} but observed {actual}")) },
    }
}

fn run(scenario: &ScenarioRequest) -> HeadlessScenarioSummary {
    run_headless_scenario(
        scenario,
        judge,
        |bits| format!("{:.6}", f32::from_bits(bits)),
        |actual: Option<u32>| format!("{:?}", actual.map(f32::from_bits)),
    )
}

fn run_with_packs(
    scenario: &ScenarioRequest,
    seed_pack: Option<&SeedConfigPack>,
    tweak_pack: Option<&TweakPack>,
) -> HeadlessScenarioSummary {
    run_headless_scenario_with_config_packs(
        scenario,
        seed_pack,
        tweak_pack,
        judge,
        |bits| format!("{:.6}", f32::from_bits(bits)),
        |actual: Option<u32>| format!("{:?}", actual.map(f32::from_bits)),
    )
}

#[test]
fn evaluate_assertions_stops_at_first_failure() {
    let scenario = test_scenario(vec![
        test_assertion("world.actor_count", "eq", 1.0, Some(0.0)),
        test_assertion("world.frames_simulated", "eq", 2.0, Some(0.0)),
        test_assertion("world.actor_count", "eq", 1.0, Some(0.0)),
    ]);

    let summary = run(&scenario);

    assert_eq!(summary.result.status, HarnessStatus::Failed);
    assert_eq!(summary.assertions.len(), 2, "evaluation should stop after the first failure");
    assert!(summary.assertions[0].passed, "the first assertion should pass");
    assert!(!summary.assertions[1].passed, "the second assertion should fail");
    assert_eq!(summary.assertions[1].metric, "world.frames_simulated");
    assert!(summary.assertions[1].details.as_deref().is_some_and(|details| details.contains("observed 1")));
    assert!(summary.result.summary.starts_with("Scenario failed on frame 0 after 1 simulated steps."));
}

#[test]
fn run_headless_scenario_reports_bad_seed_before_simulation() {
    let scenario = test_scenario(Vec::new());
    let scenario = ScenarioRequest { seed: SeedInfo::new("hero_forest", "not-a-hex-seed"), ..scenario };

    let summary = run(&scenario);

    assert_eq!(summary.result.status, HarnessStatus::Failed);
    assert_eq!(summary.report_seed.value_hex, "not-a-hex-seed");
    assert_eq!(summary.metrics.frames_simulated, 0);
    assert_eq!(summary.metrics.applied_input_count, 0);
    assert!(summary.result.details.as_deref().is_some_and(|details| details.contains("failed to parse root seed")));
    assert!(summary.notes.as_ref().is_some_and(|notes| {
        notes.iter().any(|note| note.contains("failed before the fixed-step simulation completed"))
    }));
}

#[test]
fn run_headless_scenario_with_tweak_pack_surfaces_tweak_metrics() {
    let scenario = test_scenario(vec![test_assertion("tweaks.dirty_namespace_count", "eq", 1.0, Some(0.0))]);
    let pack = TweakPack::new(TweakEntries::from_pairs(vec![(
        "world.wind_strength".to_owned(),
        TweakValue::Scalar(0.5f32.to_bits()),
    )]));

    let summary = run_headless_scenario_with_tweak_pack(
        &scenario,
        Some(&pack),
        judge,
        |bits| format!("{:.6}", f32::from_bits(bits)),
        |actual: Option<u32>| format!("{:?}", actual.map(f32::from_bits)),
    );

    assert_eq!(summary.result.status, HarnessStatus::Passed);
    assert_eq!(summary.report_seed.config_pack.as_ref().map(|pack| pack.name.as_str()), Some("default"));
    assert_eq!(summary.report_seed.derivations.len(), 7);
    assert_eq!(summary.assertions.len(), 1);
    assert!(summary.assertions[0].passed);
}

#[test]
fn run_headless_scenario_with_seed_config_pack_reports_non_default_pack() {
    let scenario = test_scenario(Vec::new());
    let seed_config_pack = SeedConfigPack::new(
        "combat_variant",
        StringMap::from_pairs(vec![("combat".to_owned(), "0xF00DFACE".to_owned())]),
    )
    .expect("seed config pack should validate");

    let summary = run_with_packs(&scenario, Some(&seed_config_pack), None);

    assert_eq!(summary.result.status, HarnessStatus::Passed);
    assert_eq!(
        summary.report_seed.config_pack.as_ref().map(|pack| pack.name.as_str()),
        Some("combat_variant")
    );
    assert!(summary
        .report_seed
        .config_pack
        .as_ref()
        .is_some_and(|pack| pack.overrides.iter().any(|override_info| override_info.path == "combat")));
}

#[test]
fn same_scenario_and_seed_give_the_same_summary() {
    let mut scenario = test_scenario(vec![
        test_assertion("world.applied_input_count", "eq", 1.0, Some(0.0)),
        ScenarioAssertion {
            frame: None,
            metric: "world.active_action_count".to_owned(),
            comparator: "eq".to_owned(),
            expected: 0.0f32.to_bits(),
            tolerance: None,
        },
    ]);
    scenario.fixed_steps = 3;
    scenario.scripted_inputs = vec![
        ScriptedInput { frame: 0, action: "dash".to_owned(), state: "pressed".to_owned() },
        ScriptedInput { frame: 2, action: "dash".to_owned(), state: "released".to_owned() },
    ];

    let first = run(&scenario);
    let second = run(&scenario);

    assert_eq!(first.result.status, HarnessStatus::Passed);
    assert_eq!(first.metrics.frames_simulated, 3);
    assert_eq!(first.metrics.applied_input_count, 2);
    assert_eq!(first.assertions.len(), 2);
    assert_eq!(first.assertions[1].frame, 2);
    assert_eq!(first.determinism_hash, second.determinism_hash);
    assert_eq!(first, second);
    assert!(first.result.summary.contains("completed 3 fixed steps"));

    let unknown = run(&test_scenario(vec![test_assertion("world.unknown", "eq", 0.0, None)]));
    assert_eq!(unknown.result.status, HarnessStatus::Failed);
    assert_eq!(unknown.assertions[0].details.as_deref(), Some("metric `world.unknown` is not available"));

    let bad_pack = TweakPack::new(TweakEntries::from_pairs(vec![("nope".to_owned(), TweakValue::Toggle(true))]));
    let refused = run_with_packs(&test_scenario(Vec::new()), None, Some(&bad_pack));
    assert_eq!(refused.result.status, HarnessStatus::Failed);
    assert_eq!(
        refused.result.details.as_deref(),
        Some("failed to apply tweak pack: unknown tweak key `nope`")
    );
}

#[test]
fn failure_kind_follows_the_run_status() {
    let passing = run(&test_scenario(vec![test_assertion("world.actor_count", "eq", 1.0, Some(0.0))]));
    assert_eq!(passing.result.status, HarnessStatus::Passed);
    assert_eq!(passing.result.failure_kind, None);
    assert_eq!(passing.assertions[0].frame, 0);
    assert_eq!(passing.assertions[0].actual, Some(1.0f32.to_bits()));

    let failing = run(&test_scenario(vec![test_assertion("world.actor_count", "eq", 2.0, Some(0.0))]));
    assert_eq!(failing.result.status, HarnessStatus::Failed);
    assert_eq!(failing.result.failure_kind, Some(FailureKind::ScenarioFailed));

    let scenario = test_scenario(Vec::new());
    let bad_seed = run(&ScenarioRequest { seed: SeedInfo::new("hero_forest", "zz"), ..scenario });
    assert_eq!(bad_seed.result.failure_kind, Some(FailureKind::ScenarioFailed));
    assert_eq!(bad_seed.result.summary, "Scenario could not be executed.");
    assert_eq!(bad_seed.metrics.simulation_rate_hz, 60);
    assert_eq!(bad_seed.metrics.spawned_actor_count, 1);
    assert_eq!(bad_seed.metrics.scripted_input_count, 0);
    assert!(bad_seed.assertions.is_empty());
}

#[test]
fn run_reports_say_how_the_run_ended() {
    let mut scenario = test_scenario(vec![ScenarioAssertion {
        frame: None,
        metric: "world.frames_simulated".to_owned(),
        comparator: "eq".to_owned(),
        expected: 5.0f32.to_bits(),
        tolerance: None,
    }]);
    scenario.fixed_steps = 4;
    let failed = run(&scenario);
    assert_eq!(failed.result.summary, "Scenario failed after 4 simulated steps.");
    assert_eq!(failed.metrics.frames_simulated, 4);
    assert_eq!(failed.assertions[0].frame, 3);
    assert_eq!(failed.result.details.as_deref(), Some("expected 5 but observed 4"));
    assert_eq!(failed.notes, Some(vec!["Execution stopped at the first failing assertion.".to_owned()]));
    assert_eq!(failed.metrics.spawned_actor_count, 1);
    assert_eq!(failed.metrics.simulation_rate_hz, 60);

    let passed = run(&test_scenario(Vec::new()));
    assert_eq!(passed.result.summary, "Scenario completed 1 fixed steps without assertion failures.");
    assert_eq!(passed.result.details, None);
    assert_eq!(passed.notes, Some(vec!["Headless execution uses the ECS schedule spine.".to_owned()]));
}
