use wrela::wr_agentd::{
    CommandRunnerSpec, daemon_job_artifacts, job_id, launch_run_id, mark_job_finished,
    mark_job_started, prepare_launch, queued_snapshot,
};
use wrela::wr_tools_harness::contract::{DaemonCommandRequest, DaemonJobState, DaemonLaunchRequest};

#[test]
fn agentd_runner_defaults_to_cargo_xtask() {
    let runner = CommandRunnerSpec::default();
    assert_eq!(runner.program, "cargo");
    assert_eq!(runner.prefix_args, vec!["xtask"]);
}

#[test]
fn agentd_job_ids_are_zero_padded() {
    assert_eq!(job_id(1), "job-0001");
    assert_eq!(job_id(123), "job-0123");
    assert_eq!(job_id(12345), "job-12345");
}

#[test]
fn agentd_launch_fills_in_a_run_id_only_when_missing() {
    let command = DaemonCommandRequest::RunScenario { scenario_path: "s.ron".to_owned(), run_id: None };
    assert_eq!(launch_run_id(&command, "job-0007"), "run_scenario-job-0007");
    let launched = prepare_launch(DaemonLaunchRequest { command }, "job-0007").expect("valid");
    assert_eq!(launched.run_id(), Some("run_scenario-job-0007"));

    let command = DaemonCommandRequest::Verify { run_id: Some("mine".to_owned()) };
    let launched = prepare_launch(DaemonLaunchRequest { command: command.clone() }, "job-0001").expect("valid");
    assert_eq!(launched, command);

    let refused = prepare_launch(
        DaemonLaunchRequest {
            command: DaemonCommandRequest::PerfCheck { scenario_path: "".to_owned(), run_id: None },
        },
        "job-0002",
    );
    assert_eq!(refused, Err("invalid scenario: scenario_path must not be empty".to_owned()));
}

#[test]
fn agentd_job_artifacts_list_logs_report_and_directory() {
    let command = DaemonCommandRequest::Verify { run_id: Some("verify-1".to_owned()) };
    let artifacts = daemon_job_artifacts("job-0001", &command);
    assert_eq!(artifacts.len(), 4);
    assert_eq!(artifacts[0].path, "reports/harness/daemon/job-0001/stdout.log");
    assert_eq!(artifacts[1].path, "reports/harness/daemon/job-0001/stderr.log");
    assert_eq!(artifacts[2].path, "reports/harness/verify/verify-1/terminal_report.json");
    assert_eq!(artifacts[3].path, "reports/harness/daemon/job-0001");
    assert_eq!(artifacts[3].media_type, "inode/directory");
    let artifacts = daemon_job_artifacts("job-0002", &DaemonCommandRequest::Verify { run_id: None });
    assert_eq!(artifacts.len(), 3);
}

#[test]
fn agentd_job_lifecycle_records_start_and_outcome() {
    let command = DaemonCommandRequest::Verify { run_id: Some("v".to_owned()) };
    let mut snapshot = queued_snapshot("job-0001", command);
    assert_eq!(snapshot.state, DaemonJobState::Queued);
    assert_eq!(snapshot.schema_version, "wr_harness/v1");
    mark_job_started(&mut snapshot, 10);
    assert_eq!(snapshot.state, DaemonJobState::Running);
    assert_eq!(snapshot.started_at_unix_ms, Some(10));

    let mut ok = snapshot.clone();
    mark_job_finished(&mut ok, Ok(Some(0)), 20);
    assert_eq!(ok.state, DaemonJobState::Succeeded);
    assert_eq!(ok.exit_code, Some(0));
    assert_eq!(ok.completed_at_unix_ms, Some(20));
    assert_eq!(ok.error, None);

    let mut failed = snapshot.clone();
    mark_job_finished(&mut failed, Ok(Some(-3)), 20);
    assert_eq!(failed.state, DaemonJobState::Failed);
    assert_eq!(failed.error.as_deref(), Some("subprocess exited with status -3"));

    let mut killed = snapshot.clone();
    mark_job_finished(&mut killed, Ok(None), 20);
    assert_eq!(killed.error.as_deref(), Some("subprocess exited with status <unknown>"));

    let mut broken = snapshot;
    mark_job_finished(&mut broken, Err("spawn failed".to_owned()), 21);
    assert_eq!(broken.state, DaemonJobState::Failed);
    assert_eq!(broken.error.as_deref(), Some("spawn failed"));
}
