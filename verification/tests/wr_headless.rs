use wrela::wr_headless::{
    HeadlessRunOptions, RUN_SCENARIO_COMMAND_NAME, default_run_id, declared_path_match, merge_notes,
    normalize_relative_path, scenario_run_artifacts, split_path, target_runtime,
    validate_declared_scenario_path,
};

fn args(values: &[&str]) -> Vec<String> {
    values.iter().map(|value| value.to_string()).collect()
}

#[test]
fn declared_scenario_path_accepts_same_file_with_relative_segments() {
    let loaded = "/workspace/wrela/scenarios/smoke/startup.ron";
    let declared = normalize_relative_path("./scenarios/smoke/startup.ron");

    validate_declared_scenario_path(loaded, &declared, loaded)
        .expect("same file with relative segments should validate");
}

#[test]
fn headless_declared_path_mismatch_names_both_paths() {
    let error = validate_declared_scenario_path("/tmp/run/startup.ron", "/tmp/run/other.ron", "startup.ron")
        .expect_err("mismatched declared path should fail");

    assert!(error.contains("does not match loaded file"));
    assert_eq!(
        error,
        "declared scenario_path `/tmp/run/other.ron` does not match loaded file `startup.ron`"
    );
}

#[test]
fn headless_path_matching_compares_whole_components() {
    assert!(declared_path_match("/a/b/c.ron", "/a/b/c.ron"));
    assert!(declared_path_match("/a/b/c.ron", "b/c.ron"));
    assert!(declared_path_match("/a//b/./c.ron", "/a/b/c.ron"));
    assert!(!declared_path_match("/a/bb/c.ron", "b/c.ron"));
    assert!(!declared_path_match("/a/b/c.ron", "/b/c.ron"));
    assert!(!declared_path_match("/a/b/c.ron", "./c.ron"));
}

#[test]
fn headless_normalization_drops_dots_and_resolves_parents() {
    assert_eq!(normalize_relative_path("./a/./b/../c"), "a/c");
    assert_eq!(normalize_relative_path("../a"), "a");
    assert_eq!(normalize_relative_path("/x/../y"), "/y");
    assert_eq!(normalize_relative_path("/.."), "/");
    assert_eq!(normalize_relative_path("a//b/"), "a/b");
    assert_eq!(normalize_relative_path(""), "");
    assert_eq!(split_path("a//b"), vec!["a", "", "b"]);
}

#[test]
fn headless_options_take_flags_and_a_bare_scenario_path() {
    let options = HeadlessRunOptions::parse(args(&["scenarios/a.ron", "--run-id", "r1"])).expect("parse");
    assert_eq!(options.scenario_path, "scenarios/a.ron");
    assert_eq!(options.output_root, ".");
    assert_eq!(options.run_id.as_deref(), Some("r1"));

    let options = HeadlessRunOptions::parse(args(&["--scenario", "a.ron", "--output-root", "/out"]))
        .expect("parse");
    assert_eq!(options.scenario_path, "a.ron");
    assert_eq!(options.output_root, "/out");
    assert_eq!(options.run_id, None);
}

#[test]
fn headless_options_refuse_extra_missing_and_absent_values() {
    assert_eq!(
        HeadlessRunOptions::parse(args(&["a.ron", "b.ron"])).expect_err("extra"),
        "unsupported argument `b.ron` for wr_headless; supported flags: --scenario, --output-root, --run-id"
    );
    assert_eq!(
        HeadlessRunOptions::parse(args(&["--scenario"])).expect_err("missing"),
        "expected a value after --scenario"
    );
    assert_eq!(
        HeadlessRunOptions::parse(args(&[])).expect_err("absent"),
        "missing scenario path; pass --scenario <path>"
    );
}

#[test]
fn headless_notes_merge_in_order_and_vanish_when_empty() {
    assert_eq!(merge_notes(None, None), None);
    assert_eq!(merge_notes(Some(vec![]), Some(vec![])), None);
    assert_eq!(
        merge_notes(Some(vec!["a".to_owned()]), Some(vec!["b".to_owned(), "c".to_owned()])),
        Some(vec!["a".to_owned(), "b".to_owned(), "c".to_owned()])
    );
    assert_eq!(merge_notes(None, Some(vec!["b".to_owned()])), Some(vec!["b".to_owned()]));
}

#[test]
fn headless_run_id_and_artifacts_follow_the_runner() {
    assert_eq!(default_run_id("startup-ron", 42), "startup-ron-42");
    assert_eq!(RUN_SCENARIO_COMMAND_NAME, "run-scenario");
    let artifacts = scenario_run_artifacts(
        "reports/harness/run-scenario/r/terminal_report.json",
        "scenarios/a.ron",
        true,
        &Some("packs/p.ron".to_owned()),
        true,
    );
    assert_eq!(artifacts.len(), 3);
    assert_eq!(artifacts[0].role, "terminal_report");
    assert_eq!(artifacts[1].role, "scenario_source");
    assert_eq!(artifacts[2].path, "packs/p.ron");
    let artifacts = scenario_run_artifacts("t.json", "a.ron", false, &Some("p.ron".to_owned()), false);
    assert_eq!(artifacts.len(), 1);
    assert_eq!(target_runtime().crate_name, "wr_game");
}
