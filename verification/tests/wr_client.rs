use wrela::wr_client::{ClientCliOptions, ClientCommand, help_text, parse_command, target_runtime};
use wrela::wr_core::CrateBoundary;
use wrela::wr_game;
use wrela::wr_platform::clock::FixedStepConfig;
use wrela::wr_platform::runtime::{WindowConfig, WindowMode};

fn args(values: &[&str]) -> Vec<String> {
    values.iter().map(|value| value.to_string()).collect()
}

#[test]
fn smoke_test_flag_sets_an_auto_close_threshold() {
    let options = ClientCliOptions::parse(vec![String::from("--smoke-test")]).expect("parse");

    assert_eq!(options.runtime.auto_close_after_fixed_updates, Some(30));
    assert_eq!(options.runtime.window.mode, WindowMode::Windowed);
}

#[test]
fn parser_accepts_borderless_and_timing_overrides() {
    let options = ClientCliOptions::parse(vec![
        String::from("--borderless"),
        String::from("--simulation-rate-hz"),
        String::from("90"),
        String::from("--max-catch-up-steps"),
        String::from("8"),
        String::from("--auto-close-after-redraws"),
        String::from("12"),
    ])
    .expect("parse");

    assert_eq!(options.runtime.window.mode, WindowMode::Borderless);
    assert_eq!(
        options.runtime.fixed_step,
        FixedStepConfig { simulation_rate_hz: 90, max_catch_up_steps: 8 }
    );
    assert_eq!(options.runtime.auto_close_after_redraws, Some(12));
}

#[test]
fn parser_rejects_unknown_flags() {
    let error = ClientCliOptions::parse(vec![String::from("--mystery")])
        .expect_err("unknown flags should fail");

    assert!(error.contains("unsupported wr_client argument `--mystery`"));
}

#[test]
fn parse_command_treats_help_as_a_non_error_path() {
    let command = parse_command(vec![String::from("--help")]).expect("parse");

    assert_eq!(command, ClientCommand::Help);
}

#[test]
fn target_runtime_stays_on_wr_game() {
    assert_eq!(target_runtime(), wr_game::init_entrypoint());
}

#[test]
fn default_window_config_matches_platform_defaults() {
    let options = ClientCliOptions::default();

    assert_eq!(options.runtime.window, WindowConfig::default());
}

#[test]
fn client_unknown_flag_error_carries_the_usage_line() {
    let error = ClientCliOptions::parse(args(&["--mystery"])).expect_err("unknown flag");

    assert_eq!(error, format!("unsupported wr_client argument `--mystery`\n\n{}", help_text()));
}

#[test]
fn client_window_flags_set_size_title_and_later_flags_win() {
    let options = ClientCliOptions::parse(args(&[
        "--width", "800", "--height", "600", "--title", "Duel", "--borderless", "--windowed",
        "--width", "1024",
    ]))
    .expect("parse");

    assert_eq!(options.runtime.window.width, 1024);
    assert_eq!(options.runtime.window.height, 600);
    assert_eq!(options.runtime.window.title, "Duel");
    assert_eq!(options.runtime.window.mode, WindowMode::Windowed);
}

#[test]
fn client_smoke_test_keeps_an_explicit_threshold() {
    let options = ClientCliOptions::parse(args(&[
        "--auto-close-after-fixed-updates",
        "7",
        "--smoke-test",
    ]))
    .expect("parse");

    assert_eq!(options.runtime.auto_close_after_fixed_updates, Some(7));
}

#[test]
fn client_missing_values_are_reported_per_flag() {
    assert_eq!(
        ClientCliOptions::parse(args(&["--width"])).expect_err("missing width"),
        "expected a value after --width"
    );
    assert_eq!(
        ClientCliOptions::parse(args(&["--title"])).expect_err("missing title"),
        "expected a value after --title"
    );
    assert_eq!(
        ClientCliOptions::parse(args(&["--auto-close-after-redraws"])).expect_err("missing"),
        "expected a value after --auto-close-after-redraws"
    );
}

#[test]
fn client_unparsable_values_name_the_flag_and_the_parse_error() {
    let error = ClientCliOptions::parse(args(&["--height", "tall"])).expect_err("bad height");
    assert_eq!(error, format!("failed to parse --height: {}", "tall".parse::<u32>().unwrap_err()));

    let error = ClientCliOptions::parse(args(&["--width", "4294967296"])).expect_err("too big");
    assert!(error.starts_with("failed to parse --width: "));

    let options = ClientCliOptions::parse(args(&["--width", "+640"])).expect("plus sign");
    assert_eq!(options.runtime.window.width, 640);
}

#[test]
fn client_parsed_options_are_validated() {
    assert_eq!(
        ClientCliOptions::parse(args(&["--simulation-rate-hz", "0"])).expect_err("zero rate"),
        "simulation_rate_hz must be greater than zero"
    );
    assert_eq!(
        ClientCliOptions::parse(args(&["--max-catch-up-steps", "0"])).expect_err("zero steps"),
        "max_catch_up_steps must be greater than zero"
    );
    assert_eq!(
        ClientCliOptions::parse(args(&["--height", "0"])).expect_err("zero height"),
        "window dimensions must be greater than zero"
    );
}

#[test]
fn client_help_wins_over_bad_arguments_and_run_carries_options() {
    assert_eq!(parse_command(args(&["--mystery", "-h"])).expect("help"), ClientCommand::Help);
    match parse_command(args(&["--width", "640"])).expect("run") {
        ClientCommand::Run(options) => assert_eq!(options.runtime.window.width, 640),
        ClientCommand::Help => panic!("expected a run command"),
    }
    assert!(parse_command(args(&["--mystery"])).is_err());
}

#[test]
fn client_entrypoints_name_the_app_and_the_game() {
    let entry = wrela::wr_client::init_entrypoint();
    assert_eq!(entry.crate_name, "wr_client");
    assert_eq!(entry.boundary, CrateBoundary::AppShell);
    assert!(entry.integration_only);
    assert_eq!(target_runtime().crate_name, "wr_game");
    assert_eq!(target_runtime().boundary, CrateBoundary::Composition);
}
