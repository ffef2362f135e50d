use wrela::wr_telemetry::{PlatformMetadata, RunMetadata, RunTimestamps, SeedInfo};
use wrela::wr_tools_harness::artifact_paths::{ArtifactLayout, join_path};
use wrela::wr_tools_harness::contract::{
    DaemonCommandRequest, DaemonLaunchRequest, HARNESS_SCHEMA_VERSION, HarnessError, HarnessStatus,
    ScenarioActorSpawn, ScenarioAssertion, ScenarioAssertionCheck, ScenarioRequest, ScriptedInput,
    canonical_noop_test_result_bundle, supported_assertion_comparators, validate_scenario_request,
};

fn canonical_scenario_request() -> ScenarioRequest {
    ScenarioRequest {
        schema_version: HARNESS_SCHEMA_VERSION.to_owned(),
        scenario_path: "scenarios/smoke/startup.ron".to_owned(),
        simulation_rate_hz: 60,
        fixed_steps: 16,
        seed: SeedInfo::new("hero_forest", "0xDEADBEEF"),
        spawned_actors: vec![
            ScenarioActorSpawn {
                actor_id: "player".to_owned(),
                actor_kind: "player_sword".to_owned(),
                seed_stream: Some("player".to_owned()),
            },
            ScenarioActorSpawn {
                actor_id: "wraith".to_owned(),
                actor_kind: "wraith".to_owned(),
                seed_stream: Some("enemy".to_owned()),
            },
        ],
        scripted_inputs: vec![ScriptedInput {
            frame: 4,
            action: "move_forward".to_owned(),
            state: "pressed".to_owned(),
        }],
        assertions: vec![ScenarioAssertion {
            frame: Some(15),
            metric: "startup.frame_count".to_owned(),
            comparator: "eq".to_owned(),
            expected: 16.0f32.to_bits(),
            tolerance: None,
        }],
    }
}

#[test]
fn scenario_request_validation_rejects_unsupported_assertion_comparator() {
    let mut scenario = canonical_scenario_request();
    scenario.assertions[0].comparator = "approx".to_owned();

    let error = scenario.validate().expect_err("unsupported comparators should be rejected");

    assert_eq!(
        error.to_string(),
        "invalid scenario: unsupported assertion comparator `approx`; expected one of eq, ne, gt, gte, lt, lte"
    );
}

#[test]
fn scenario_request_validation_rejects_out_of_range_scripted_input_frame() {
    let mut scenario = canonical_scenario_request();
    scenario.scripted_inputs[0].frame = scenario.fixed_steps;

    let error = scenario
        .validate()
        .expect_err("scripted input frames should stay within the fixed-step window");

    assert_eq!(
        error.to_string(),
        "invalid scenario: scripted input frame 16 must be below fixed_steps 16"
    );
}

#[test]
fn daemon_command_request_assigns_run_id_without_clobbering_existing_values() {
    let request = DaemonCommandRequest::Verify { run_id: None }.with_run_id_if_missing("daemon-verify");
    let existing = DaemonCommandRequest::RunScenario {
        scenario_path: "scenarios/smoke/startup.ron".to_owned(),
        run_id: Some("already-set".to_owned()),
    }
    .with_run_id_if_missing("ignored");

    assert_eq!(request.run_id(), Some("daemon-verify"));
    assert_eq!(existing.run_id(), Some("already-set"));
}

#[test]
fn daemon_command_request_builds_xtask_arguments_for_each_surface() {
    let lookdev = DaemonCommandRequest::LookdevSweep {
        tweak_pack_path: "tweak_packs/release/hero_forest.ron".to_owned(),
        camera_set: "forest_hero".to_owned(),
        seed_hex: "0xDEADBEEF".to_owned(),
        run_id: Some("lookdev-smoke".to_owned()),
    };

    assert_eq!(
        DaemonCommandRequest::Verify { run_id: Some("verify-smoke".to_owned()) }.xtask_args(),
        vec!["verify", "--run-id", "verify-smoke"]
    );
    assert_eq!(
        DaemonCommandRequest::RunScenario {
            scenario_path: "scenarios/smoke/startup.ron".to_owned(),
            run_id: Some("scenario-smoke".to_owned()),
        }
        .xtask_args(),
        vec!["run-scenario", "--scenario", "scenarios/smoke/startup.ron", "--run-id", "scenario-smoke"]
    );
    assert_eq!(
        DaemonCommandRequest::CaptureFrames {
            scenario_path: "scenarios/traversal/hero_path.ron".to_owned(),
            run_id: Some("capture-smoke".to_owned()),
        }
        .xtask_args(),
        vec!["capture", "--scenario", "scenarios/traversal/hero_path.ron", "--run-id", "capture-smoke"]
    );
    assert_eq!(
        lookdev.xtask_args(),
        vec![
            "lookdev",
            "--pack",
            "tweak_packs/release/hero_forest.ron",
            "--camera-set",
            "forest_hero",
            "--seed",
            "0xDEADBEEF",
            "--run-id",
            "lookdev-smoke",
        ]
    );
    assert_eq!(
        DaemonCommandRequest::PerfCheck {
            scenario_path: "scenarios/traversal/hero_path.ron".to_owned(),
            run_id: Some("perf-smoke".to_owned()),
        }
        .xtask_args(),
        vec!["perf", "--scenario", "scenarios/traversal/hero_path.ron", "--run-id", "perf-smoke"]
    );
}

#[test]
fn daemon_launch_request_validation_rejects_empty_paths() {
    let request = DaemonLaunchRequest {
        command: DaemonCommandRequest::RunScenario {
            scenario_path: "   ".to_owned(),
            run_id: Some("invalid".to_owned()),
        },
    };

    let error = request.validate().expect_err("empty daemon request paths should be rejected");

    assert_eq!(error.to_string(), "invalid scenario: scenario_path must not be empty");
}

#[test]
fn harness_canonical_scenario_is_valid_and_each_refusal_is_named() {
    assert_eq!(canonical_scenario_request().validate(), Ok(()));

    let mut scenario = canonical_scenario_request();
    scenario.schema_version = "wr_harness/v0".to_owned();
    assert_eq!(
        scenario.validate().expect_err("old schema").to_string(),
        "invalid scenario: expected schema version `wr_harness/v1`, found `wr_harness/v0`"
    );

    let mut scenario = canonical_scenario_request();
    scenario.simulation_rate_hz = 0;
    assert_eq!(
        scenario.validate().expect_err("zero rate").to_string(),
        "invalid scenario: simulation_rate_hz must be greater than zero"
    );

    let mut scenario = canonical_scenario_request();
    scenario.fixed_steps = 0;
    assert_eq!(
        scenario.validate().expect_err("zero steps").to_string(),
        "invalid scenario: fixed_steps must be greater than zero"
    );

    let mut scenario = canonical_scenario_request();
    scenario.spawned_actors[1].actor_id = "player".to_owned();
    assert_eq!(
        scenario.validate().expect_err("duplicate").to_string(),
        "invalid scenario: duplicate actor_id `player`"
    );

    let mut scenario = canonical_scenario_request();
    scenario.assertions[0].frame = Some(16);
    assert_eq!(
        scenario.validate().expect_err("late assertion").to_string(),
        "invalid scenario: assertion frame 16 must be below fixed_steps 16"
    );

    let mut scenario = canonical_scenario_request();
    scenario.assertions[0].frame = None;
    assert_eq!(scenario.validate(), Ok(()));
}

#[test]
fn harness_comparators_and_errors_render_as_documented() {
    assert_eq!(supported_assertion_comparators(), vec!["eq", "ne", "gt", "gte", "lt", "lte"]);
    assert_eq!(HarnessError::Io("disk full".to_owned()).to_string(), "i/o error: disk full");
    assert_eq!(
        HarnessError::invalid_path("x".to_owned()).to_string(),
        "invalid artifact path: x"
    );
    assert_eq!(HarnessError::Json("eof".to_owned()).to_string(), "json serialization error: eof");
    assert_eq!(HarnessError::Ron("eof".to_owned()).to_string(), "ron serialization error: eof");
}

#[test]
fn harness_artifact_layout_is_stable_under_reports_harness() {
    let layout = ArtifactLayout::new("verify", "unit-test");
    assert_eq!(layout.run_directory(), "reports/harness/verify/unit-test");
    assert_eq!(layout.terminal_report_path(), "reports/harness/verify/unit-test/terminal_report.json");
    assert_eq!(layout.terminal_report_path_string(), layout.terminal_report_path());
    assert_eq!(join_path("a/", "b"), "a/b");
    assert_eq!(join_path("a", "/b"), "/b");
    assert_eq!(join_path("", "b"), "b");
}

#[test]
fn harness_daemon_requests_name_their_commands_and_refuse_blank_lookdev_fields() {
    let lookdev = DaemonCommandRequest::LookdevSweep {
        tweak_pack_path: "pack.ron".to_owned(),
        camera_set: " ".to_owned(),
        seed_hex: "0x1".to_owned(),
        run_id: None,
    };
    assert_eq!(lookdev.artifact_command_name(), "lookdev");
    assert_eq!(lookdev.command_label(), "lookdev_sweep");
    assert_eq!(
        lookdev.validate().expect_err("blank camera").to_string(),
        "invalid scenario: camera_set must not be empty"
    );
    assert_eq!(lookdev.xtask_args(), vec!["lookdev", "--pack", "pack.ron", "--camera-set", " ", "--seed", "0x1"]);
    let capture = DaemonCommandRequest::CaptureFrames { scenario_path: "s.ron".to_owned(), run_id: None };
    assert_eq!(capture.artifact_command_name(), "capture");
    assert_eq!(capture.command_label(), "capture_frames");
    assert!(capture.validate().is_ok());
    assert_eq!(capture.run_id(), None);
}

#[test]
fn harness_canonical_noop_bundle_passes_with_one_suite() {
    let metadata = RunMetadata::new(
        "verify",
        "unit-test",
        "0123".to_owned(),
        "/tmp".to_owned(),
        PlatformMetadata { os: "linux".to_owned(), arch: "x86_64".to_owned(), family: "unix".to_owned() },
        RunTimestamps { started_at_unix_ms: 1, completed_at_unix_ms: 2 },
    );
    let bundle = canonical_noop_test_result_bundle(
        metadata,
        SeedInfo::new("canonical", "0x00000000DEADBEEF"),
        "reports/harness/verify/unit-test/terminal_report.json",
    );
    assert_eq!(bundle.schema_version, HARNESS_SCHEMA_VERSION);
    assert_eq!(bundle.result.status, HarnessStatus::Passed);
    assert_eq!(bundle.suites.len(), 1);
    assert_eq!(bundle.suites[0].name, "noop_harness_contract");
    assert_eq!(bundle.artifacts[0].path, "reports/harness/verify/unit-test/terminal_report.json");
}

#[test]
fn harness_invalid_scenario_error_names_the_reason() {
    assert_eq!(
        HarnessError::invalid_scenario("no frames".to_owned()).to_string(),
        "invalid scenario: no frames"
    );
}

#[test]
fn scenario_request_validate_checks_the_request_parts() {
    let scenario = canonical_scenario_request();
    assert!(scenario.validate().is_ok());
    let checks: Vec<ScenarioAssertionCheck> = scenario
        .assertions
        .iter()
        .map(|a| ScenarioAssertionCheck {
            frame: a.frame,
            metric: a.metric.clone(),
            comparator: a.comparator.clone(),
        })
        .collect();
    let mut late = scenario.clone();
    late.assertions[0].frame = Some(16);
    let by_parts = validate_scenario_request(
        &late.schema_version,
        late.simulation_rate_hz,
        late.fixed_steps,
        &late.spawned_actors,
        &late.scripted_inputs,
        &checks.iter().map(|c| ScenarioAssertionCheck { frame: Some(16), ..c.clone() }).collect(),
    );
    assert_eq!(late.validate(), by_parts);
    assert_eq!(
        late.validate().expect_err("late assertion frame").to_string(),
        "invalid scenario: assertion frame 16 must be below fixed_steps 16"
    );
}
