use wrela::wr_render_api::{CapturedFrameInfo, GraphicsAdapterInfo, RenderColorSpace, RenderSize};
use wrela::wr_render_wgpu::OffscreenCaptureOutcome;
use wrela::wr_telemetry::verification::{VerificationStepRecord, VerificationStepStatus};
use wrela::wr_telemetry::{PlatformMetadata, RunMetadata, RunTimestamps};
use wrela::wr_tools_harness::contract::{
    ArtifactDescriptor, FailureKind, HarnessStatus, ResultEnvelope, TestSuiteResult,
};
use wrela::xtask::bootstrap_commands::{
    CaptureStage, plan_capture_report,
    LookdevCommandOptions, ScenarioCommandOptions, default_run_id, plan_lookdev, plan_perf,
    source_artifact, unavailable_report,
};
use wrela::xtask::verify::{
    SuiteCounts, SuiteExecution, VERIFY_COMMAND_NAME, VerifyOptions, VerifyProgress,
    count_suite_events, default_verify_run_id, finish_nextest_run, nextest_events,
    nextest_inventory_failure, nextest_suite_counts, stdout_media_type, suite_totals_fit,
    verify_bundle,
};
use wrela::xtask::{init_entrypoint, scaffold_reply, supported_commands};

fn args(values: &[&str]) -> Vec<String> {
    values.iter().map(|value| value.to_string()).collect()
}

fn metadata() -> RunMetadata {
    RunMetadata::new(
        VERIFY_COMMAND_NAME,
        "unit-test",
        "0123456789abcdef0123456789abcdef01234567".to_owned(),
        "/tmp".to_owned(),
        PlatformMetadata { os: "linux".to_owned(), family: "unix".to_owned(), arch: "x86_64".to_owned() },
        RunTimestamps { started_at_unix_ms: 1, completed_at_unix_ms: 2 },
    )
}

#[test]
fn xtask_scaffold_commands_and_replies() {
    assert_eq!(supported_commands(), vec!["help", "scaffold-status"]);
    assert_eq!(init_entrypoint().crate_name, "xtask");
    let help = scaffold_reply(None);
    assert_eq!(help.exit_code, 0);
    assert_eq!(help.stdout[1], "available stub commands: help, scaffold-status");
    assert_eq!(scaffold_reply(Some("-h")), help);
    assert_eq!(
        scaffold_reply(Some("scaffold-status")).stdout,
        vec!["workspace scaffold present; see PR-001 for harness contract work."]
    );
    let unknown = scaffold_reply(Some("deploy"));
    assert_eq!(unknown.exit_code, 1);
    assert_eq!(
        unknown.stderr,
        vec!["unsupported xtask command `deploy` in scaffold phase; implement it in its owning roadmap task"]
    );
}

#[test]
fn xtask_scenario_options_name_the_command_in_errors() {
    let options = ScenarioCommandOptions::parse("perf", args(&["--run-id", "r", "a.ron"])).expect("parse");
    assert_eq!(options.scenario_path, "a.ron");
    assert_eq!(options.run_id.as_deref(), Some("r"));
    assert_eq!(
        ScenarioCommandOptions::parse("capture", args(&[])).expect_err("absent"),
        "missing scenario path; pass --scenario <path> to capture"
    );
    assert_eq!(
        ScenarioCommandOptions::parse("perf", args(&["a.ron", "b.ron"])).expect_err("extra"),
        "unsupported argument `b.ron` for perf; supported flags: --scenario, --run-id"
    );
    assert_eq!(
        ScenarioCommandOptions::parse("perf", args(&["--run-id"])).expect_err("missing"),
        "expected a value after --run-id for perf"
    );
}

#[test]
fn xtask_lookdev_options_require_pack_camera_and_seed_in_order() {
    let options = LookdevCommandOptions::parse(args(&[
        "--seed", "0x1", "--pack", "p.ron", "--camera-set", "hero",
    ]))
    .expect("parse");
    assert_eq!(options.tweak_pack_path, "p.ron");
    assert_eq!(options.camera_set, "hero");
    assert_eq!(options.seed_hex, "0x1");
    assert_eq!(options.run_id, None);
    assert_eq!(
        LookdevCommandOptions::parse(args(&["--seed", "0x1"])).expect_err("no pack"),
        "missing tweak pack path; pass --pack <path>"
    );
    assert_eq!(
        LookdevCommandOptions::parse(args(&["--pack", "p"])).expect_err("no camera"),
        "missing camera set; pass --camera-set <name>"
    );
    assert_eq!(
        LookdevCommandOptions::parse(args(&["--pack", "p", "--camera-set", "c"])).expect_err("no seed"),
        "missing seed; pass --seed <hex>"
    );
    assert_eq!(
        LookdevCommandOptions::parse(args(&["bare"])).expect_err("bare"),
        "unsupported argument `bare` for lookdev; supported flags: --pack, --camera-set, --seed, --run-id"
    );
}

#[test]
fn xtask_reserved_commands_plan_a_failed_report() {
    assert_eq!(default_run_id("perf", "scenarios/Hero Path.ron", 7), "perf-scenarios-hero-path-ron-7");
    let plan = plan_perf(args(&["scenarios/a.ron"]), 5).expect("plan");
    assert_eq!(plan.command_name, "perf");
    assert_eq!(plan.run_id, "perf-scenarios-a-ron-5");
    assert_eq!(plan.summary, "Perf check is not implemented yet for scenario `scenarios/a.ron`.");
    assert_eq!(plan.artifacts[0], source_artifact("scenario_source", "scenarios/a.ron", "text/ron"));

    let plan = plan_lookdev(args(&["--pack", "p.ron", "--camera-set", "c", "--seed", "0x2", "--run-id", "x"]), 0)
        .expect("plan");
    assert_eq!(plan.run_id, "x");
    assert_eq!(plan.summary, "Lookdev sweep is not implemented yet for pack `p.ron` and camera `c`.");
    assert_eq!(plan.detail, "Lookdev automation lands in PR-032; requested seed was 0x2.");

    let report = unavailable_report(plan, "reports/harness/lookdev/x/terminal_report.json", metadata());
    assert_eq!(report.result.status, HarnessStatus::Failed);
    assert_eq!(report.result.failure_kind, Some(FailureKind::BuildFailed));
    assert_eq!(report.artifacts.len(), 2);
    assert_eq!(report.artifacts[0].role, "terminal_report");
    assert_eq!(report.artifacts[1].role, "tweak_pack_source");
    assert_eq!(report.command_name, "lookdev");
}

#[test]
fn xtask_verify_options_and_media_types() {
    assert_eq!(VerifyOptions::parse(args(&["--run-id", "v1"])).expect("parse").run_id.as_deref(), Some("v1"));
    assert_eq!(
        VerifyOptions::parse(args(&["--fast"])).expect_err("unknown"),
        "unsupported argument `--fast` for verify; supported flags: --run-id"
    );
    assert_eq!(stdout_media_type("events.jsonl"), "application/x-ndjson");
    assert_eq!(stdout_media_type("stdout.json"), "application/json");
    assert_eq!(stdout_media_type("stdout.log"), "text/plain");
    assert_eq!(SuiteCounts::command_level(true), SuiteCounts { passed: 1, failed: 0, ignored: 0 });
    assert_eq!(SuiteCounts::command_level(false), SuiteCounts { passed: 0, failed: 1, ignored: 0 });
}

fn execution(name: &str, status: VerificationStepStatus) -> SuiteExecution {
    SuiteExecution {
        record: VerificationStepRecord::new(name, vec!["cargo".to_owned()], status, 5),
        counts: SuiteCounts::command_level(status == VerificationStepStatus::Passed),
        extra_artifacts: vec![ArtifactDescriptor {
            role: format!("{name}_stdout"),
            path: format!("{name}.log"),
            media_type: "text/plain".to_owned(),
        }],
        failure_kind: FailureKind::TestFailed,
        failure_details: Some(format!("{name} failed")),
    }
}

#[test]
fn xtask_verify_progress_stops_at_the_first_failed_suite() {
    let mut progress = VerifyProgress::new(vec![]);
    assert!(!progress.record_suite_result(Ok(Some(execution("fmt", VerificationStepStatus::Passed)))));
    assert!(!progress.record_suite_result(Ok(None)));
    assert_eq!(progress.result_envelope().status, HarnessStatus::Passed);
    assert!(progress.record_suite_result(Ok(Some(execution("clippy", VerificationStepStatus::Failed)))));
    assert_eq!(progress.suites.len(), 2);
    assert_eq!(progress.steps.len(), 2);
    assert_eq!(progress.artifacts.len(), 2);
    assert_eq!(progress.suites[1].name, "clippy");
    assert_eq!(progress.suites[1].failed, 1);
    let envelope = progress.result_envelope();
    assert_eq!(envelope.status, HarnessStatus::Failed);
    assert_eq!(envelope.summary, "Workspace verification stack failed.");
    assert_eq!(envelope.failure_kind, Some(FailureKind::TestFailed));
    assert_eq!(envelope.details.as_deref(), Some("clippy failed"));

    let mut progress = VerifyProgress::new(vec![]);
    assert!(progress.record_suite_result(Err("no cargo".to_owned())));
    assert_eq!(progress.failure_kind, Some(FailureKind::BuildFailed));
    assert_eq!(progress.failure_details.as_deref(), Some("no cargo"));
}

#[test]
fn xtask_verify_bundle_carries_the_stack_seed_and_notes() {
    let result = ResultEnvelope {
        status: HarnessStatus::Passed,
        summary: "ok".to_owned(),
        failure_kind: None,
        details: None,
    };
    let suites = vec![TestSuiteResult {
        name: "fmt".to_owned(),
        passed: 1,
        failed: 0,
        ignored: 0,
        duration_ms: 5,
        stdout_artifact: None,
        stderr_artifact: None,
    }];
    let bundle = verify_bundle(metadata(), suites.clone(), vec![], result.clone());
    assert_eq!(bundle.schema_version, "wr_harness/v1");
    assert_eq!(bundle.seed.label, "verification_stack");
    assert_eq!(bundle.seed.stream.as_deref(), Some("repo-automation"));
    assert_eq!(bundle.suites, suites);
    assert_eq!(bundle.result, result);
    assert_eq!(bundle.notes.expect("notes").len(), 2);
}

fn nextest(kind: &str, event: &str, passed: u64, failed: u64, ignored: u64) -> Option<wrela::xtask::verify::NextestEvent> {
    Some(wrela::xtask::verify::NextestEvent {
        kind: Some(kind.to_owned()),
        event: Some(event.to_owned()),
        passed: Some(passed),
        failed: Some(failed),
        ignored: Some(ignored),
    })
}

#[test]
fn xtask_nextest_counts_sum_finished_suites_only() {
    let events = vec![
        nextest("suite", "started", 9, 9, 9),
        nextest("suite", "ok", 3, 0, 1),
        None,
        nextest("test", "ok", 5, 5, 5),
        nextest("suite", "failed", 2, 1, 0),
        nextest("suite", "ok", (1u64 << 32) + 4, 0, 0),
    ];
    assert!(suite_totals_fit(&events));
    assert_eq!(count_suite_events(&events), Some(SuiteCounts { passed: 9, failed: 1, ignored: 1 }));
    assert_eq!(count_suite_events(&vec![None, nextest("test", "ok", 1, 0, 0)]), None);
    assert!(!suite_totals_fit(&vec![nextest("suite", "ok", u32::MAX as u64, 0, 0), nextest("suite", "ok", 1, 0, 0)]));
    assert_eq!(default_verify_run_id(12), "verify-12");
}

#[test]
fn nextest_output_is_parsed_line_by_line() {
    let stdout = [
        "{\"type\":\"test\",\"event\":\"ok\",\"name\":\"a\"}\n",
        "not json\r\n",
        "{\"type\":\"suite\",\"event\":\"ok\",\"passed\":3,\"failed\":0,\"ignored\":1}\n",
        "\n",
        "{\"type\":\"suite\",\"event\":\"failed\",\"passed\":2,\"failed\":1}\n",
        "{\"type\":\"suite\",\"event\":\"started\",\"passed\":9}",
    ]
    .join("");
    let stdout = stdout.as_str();
    let events = nextest_events(stdout);
    assert_eq!(events.len(), 6);
    assert!(events[1].is_none());
    assert!(events[3].is_none());
    assert_eq!(events[2].as_ref().and_then(|e| e.passed), Some(3));
    assert_eq!(events[4].as_ref().and_then(|e| e.ignored), None);
    assert_eq!(
        nextest_suite_counts(stdout.as_bytes()),
        Some(Some(SuiteCounts { passed: 5, failed: 1, ignored: 1 }))
    );
    assert_eq!(nextest_suite_counts(b"plain text\n"), Some(None));
    assert_eq!(nextest_suite_counts(&[0xff, 0xfe]), Some(None));
    let huge = "{\"type\":\"suite\",\"event\":\"ok\",\"passed\":4294967295}\n".repeat(2);
    assert_eq!(nextest_suite_counts(huge.as_bytes()), None);
}

#[test]
fn nextest_suites_follow_the_run() {
    let failed = VerificationStepRecord::new("nextest", vec!["cargo".to_owned()], VerificationStepStatus::Failed, 5);
    let passed = VerificationStepRecord::new("nextest", vec!["cargo".to_owned()], VerificationStepStatus::Passed, 5);

    let suite = finish_nextest_run(failed.clone(), None, Vec::new());
    assert_eq!(suite.counts, SuiteCounts { passed: 0, failed: 1, ignored: 0 });
    assert_eq!(
        suite.failure_details.as_deref(),
        Some("nextest run failed; inspect the nextest JSON and JUnit artifacts")
    );

    let suite = finish_nextest_run(failed.clone(), Some(SuiteCounts { passed: 4, failed: 0, ignored: 2 }), Vec::new());
    assert_eq!(suite.counts, SuiteCounts { passed: 4, failed: 1, ignored: 2 });

    let suite = finish_nextest_run(passed.clone(), None, Vec::new());
    assert_eq!(suite.counts, SuiteCounts { passed: 1, failed: 0, ignored: 0 });
    assert_eq!(suite.failure_details, None);

    let suite = finish_nextest_run(passed, Some(SuiteCounts { passed: 2, failed: 3, ignored: 0 }), Vec::new());
    assert_eq!(suite.counts.failed, 3);
    assert!(suite.failure_details.is_some());

    let inventory = nextest_inventory_failure(failed.clone(), Vec::new());
    assert_eq!(inventory.record, failed);
    assert_eq!(inventory.counts, SuiteCounts { passed: 0, failed: 1, ignored: 0 });
    assert_eq!(
        inventory.failure_details.as_deref(),
        Some("nextest test inventory export failed; inspect the nextest-list artifacts")
    );
}

#[test]
fn capture_reports_follow_the_stage() {
    let report = "reports/harness/capture/smoke/terminal_report.json";
    let load = plan_capture_report("scenarios/x.ron", report, CaptureStage::LoadFailed("i/o error: gone".to_owned()));
    assert!(!load.succeeded);
    assert_eq!(load.result.summary, "Failed to load capture scenario `scenarios/x.ron`.");
    assert_eq!(load.result.failure_kind, Some(FailureKind::ScenarioFailed));
    assert_eq!(load.artifacts.len(), 2);
    assert_eq!(load.artifacts[1].role, "scenario_source");
    assert_eq!(load.notes, None);

    let crash = plan_capture_report(
        "scenarios/x.ron",
        report,
        CaptureStage::RenderFailed { scenario_path: "scenarios/smoke/startup.ron".to_owned(), error: "no adapter".to_owned() },
    );
    assert_eq!(crash.result.failure_kind, Some(FailureKind::RuntimeCrash));
    assert_eq!(crash.result.summary, "Failed to capture an offscreen PNG for scenario `scenarios/smoke/startup.ron`.");
    assert_eq!(crash.result.details.as_deref(), Some("no adapter"));

    let outcome = OffscreenCaptureOutcome {
        adapter: GraphicsAdapterInfo {
            backend: "vulkan".to_owned(),
            name: "gpu".to_owned(),
            device_type: "discrete_gpu".to_owned(),
            driver: None,
            driver_info: None,
            shading_language: "wgsl".to_owned(),
        },
        frame: CapturedFrameInfo {
            size: RenderSize { width: 320, height: 180 },
            color_space: RenderColorSpace::Rgba8UnormSrgb,
            non_empty_pixels: 57600,
        },
    };
    let ok = plan_capture_report(
        "scenarios/x.ron",
        report,
        CaptureStage::Captured {
            scenario_path: "scenarios/smoke/startup.ron".to_owned(),
            outcome,
            png_path: "reports/harness/capture/smoke/frame.png".to_owned(),
            metadata_path: "reports/harness/capture/smoke/capture_metadata.json".to_owned(),
        },
    );
    assert!(ok.succeeded);
    assert_eq!(ok.result.summary, "Captured a 320x180 offscreen PNG for scenario `scenarios/smoke/startup.ron`.");
    assert_eq!(
        ok.notes,
        Some(vec![
            "Adapter backend=vulkan name=gpu device_type=discrete_gpu.".to_owned(),
            "Color space=rgba8_unorm_srgb non_empty_pixels=57600.".to_owned(),
        ])
    );
    assert_eq!(ok.artifacts[2].role, "capture_png");
    assert_eq!(ok.artifacts[3].media_type, "application/json");
}
