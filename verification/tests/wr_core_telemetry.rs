use wrela::wr_core::telemetry::{ProfilerBackend, TelemetryConfig};
use wrela::wr_telemetry::ProfilerSession;

#[test]
fn headless_default_keeps_metrics_and_tracing_enabled() {
    let config = TelemetryConfig::headless_default();

    assert!(config.enable_metrics);
    assert!(config.enable_tracing);
    assert_eq!(config.profiler_backend, ProfilerBackend::Disabled);
}

#[test]
fn profiler_backend_parser_accepts_expected_values() {
    assert_eq!(
        ProfilerBackend::parse_env("disabled").expect("disabled should parse"),
        ProfilerBackend::Disabled
    );
    assert_eq!(ProfilerBackend::parse_env("tracy").expect("tracy should parse"), ProfilerBackend::Tracy);
}

#[test]
fn profiler_backend_parser_rejects_unknown_values() {
    let error = ProfilerBackend::parse_env("capture").expect_err("invalid backend should fail");

    assert!(error.to_string().contains("disabled"));
}

#[test]
fn profiler_session_starts_disabled_and_refuses_tracy() {
    let mut config = TelemetryConfig::headless_default();
    let session = ProfilerSession::start(&config).expect("disabled profiler should start");
    assert_eq!(session.active_backend(), ProfilerBackend::Disabled);

    config.profiler_backend = ProfilerBackend::Tracy;
    let error = ProfilerSession::start(&config).expect_err("tracy is not built in");
    assert_eq!(
        error.to_string(),
        "tracy profiling requested but wr_telemetry was built without the `tracy` feature"
    );
}
