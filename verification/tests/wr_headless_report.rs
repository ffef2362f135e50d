use wrela::wr_headless::{
    ScenarioRunStage, failure_summary, plan_scenario_report, run_outcome, scenario_execution_report,
};
use wrela::wr_telemetry::{PlatformMetadata, RunMetadata, RunTimestamps};
use wrela::wr_tools_harness::contract::{HARNESS_SCHEMA_VERSION, HarnessStatus};

fn metadata() -> RunMetadata {
    RunMetadata::new(
        "run-scenario",
        "startup-1",
        "abc".to_owned(),
        "/work".to_owned(),
        PlatformMetadata { os: "linux".to_owned(), family: "unix".to_owned(), arch: "x86_64".to_owned() },
        RunTimestamps { started_at_unix_ms: 1, completed_at_unix_ms: 2 },
    )
}

#[test]
fn failure_summary_reports_an_unknown_seed_and_nothing_counted() {
    let summary = failure_summary("Scenario could not be loaded.", "no such file".to_owned());
    assert_eq!(summary.result.status, HarnessStatus::Failed);
    assert_eq!(summary.result.summary, "Scenario could not be loaded.");
    assert_eq!(summary.result.details.as_deref(), Some("no such file"));
    assert_eq!(summary.report_seed.label, "unknown");
    assert_eq!(summary.report_seed.value_hex, "0x0000000000000000");
    assert_eq!(summary.report_seed.stream.as_deref(), Some("load_failure"));
    assert_eq!(summary.metrics.frames_simulated, 0);
    assert_eq!(summary.determinism_hash, "0x0000000000000000");
}

#[test]
fn each_stage_picks_its_path_summary_and_notes() {
    let loaded = plan_scenario_report(
        ScenarioRunStage::LoadFailed("bad ron".to_owned()),
        "given.ron".to_owned(),
        String::new(),
        None,
        "given.ron",
    );
    assert_eq!(loaded.scenario_path, "given.ron");
    assert_eq!(loaded.summary.result.summary, "Scenario could not be loaded.");
    assert_eq!(loaded.notes, None);

    let pack = plan_scenario_report(
        ScenarioRunStage::TweakPackFailed("failed to load tweak pack `p.ron`: i/o error: x".to_owned()),
        "given.ron".to_owned(),
        "scenarios/a.ron".to_owned(),
        Some("p.ron".to_owned()),
        "given.ron",
    );
    assert_eq!(pack.scenario_path, "scenarios/a.ron");
    assert_eq!(pack.summary.result.summary, "Scenario could not be executed.");
    assert_eq!(pack.notes, Some(vec!["Scenario source loaded from given.ron.".to_owned()]));

    let ran = plan_scenario_report(
        ScenarioRunStage::Ran(failure_summary("Scenario completed.", "x".to_owned())),
        "given.ron".to_owned(),
        "scenarios/a.ron".to_owned(),
        Some("p.ron".to_owned()),
        "given.ron",
    );
    assert_eq!(
        ran.notes,
        Some(vec![
            "Scenario source loaded from given.ron.".to_owned(),
            "Tweak pack applied from p.ron.".to_owned(),
        ])
    );
    let report = scenario_execution_report(metadata(), ran, Vec::new());
    assert_eq!(report.schema_version, HARNESS_SCHEMA_VERSION);
    assert_eq!(report.scenario_path, "scenarios/a.ron");
    assert_eq!(report.notes.as_ref().map(Vec::len), Some(3));

    assert!(run_outcome("r.json".to_owned(), HarnessStatus::Passed).succeeded);
    assert!(!run_outcome("r.json".to_owned(), HarnessStatus::Failed).succeeded);
}
