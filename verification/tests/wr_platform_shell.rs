use wrela::wr_platform::clock::Duration;
use wrela::wr_platform::runtime::{ClientExitReason, ClientRuntimeConfig};
use wrela::wr_platform::shell::ClientShell;
use wrela::wr_platform::{ActionState, EngineAction, InputSignal, KeyboardControl, RawInput};

#[test]
fn shell_counts_inputs_and_toggles_the_overlay() {
    let mut shell = ClientShell::new(ClientRuntimeConfig::default()).expect("shell");
    let f1 = RawInput::Keyboard(KeyboardControl::F1);
    shell.handle_input_signal(InputSignal { input: f1, state: ActionState::Pressed });
    assert!(shell.diagnostics.overlay_visible);
    shell.handle_input_signal(InputSignal { input: f1, state: ActionState::Pressed });
    assert!(shell.diagnostics.overlay_visible);
    shell.handle_input_signal(InputSignal { input: f1, state: ActionState::Released });
    shell.handle_input_signal(InputSignal { input: f1, state: ActionState::Pressed });
    assert!(!shell.diagnostics.overlay_visible);
    assert_eq!(shell.diagnostics.raw_input_events, 4);
    assert_eq!(shell.diagnostics.action_events, 3);
    assert!(shell.action_tracker.is_active(EngineAction::ToggleDeveloperOverlay));
}

#[test]
fn shell_counts_focus_changes_and_resizes() {
    let mut shell = ClientShell::new(ClientRuntimeConfig::default()).expect("shell");
    shell.record_focus(true);
    shell.record_focus(true);
    shell.record_focus(false);
    assert_eq!(shell.diagnostics.focus_change_events, 2);
    shell.record_resize(800, 600);
    assert_eq!(shell.diagnostics.resize_events, 1);
    assert_eq!(shell.diagnostics.last_window_size, (800, 600));
}

#[test]
fn shell_auto_closes_after_fixed_updates_and_keeps_the_first_reason() {
    let mut config = ClientRuntimeConfig::default();
    config.fixed_step.simulation_rate_hz = 100;
    config.auto_close_after_fixed_updates = Some(3);
    config.auto_close_after_redraws = Some(1);
    let mut shell = ClientShell::new(config).expect("shell");
    let (decision, exit) = shell.pump(Duration::from_millis(20));
    assert_eq!(decision.steps_to_run, 2);
    assert!(!exit);
    let (_, exit) = shell.pump(Duration::from_millis(10));
    assert!(exit);
    assert_eq!(shell.diagnostics.fixed_updates, 3);
    assert_eq!(shell.diagnostics.max_fixed_updates_per_pump, 2);
    assert!(shell.record_rendered_frame(None));
    assert_eq!(shell.exit_reason, Some(ClientExitReason::AutoCloseAfterFixedUpdates(3)));
    let summary = shell.finish(None).expect("summary");
    assert_eq!(summary.exit_reason, ClientExitReason::AutoCloseAfterFixedUpdates(3));
    assert_eq!(summary.simulation_rate_hz, 100);
    assert_eq!(summary.diagnostics.rendered_frames, 1);
}

#[test]
fn shell_records_render_intervals_and_refuses_to_finish_without_exit() {
    let mut shell = ClientShell::new(ClientRuntimeConfig::default()).expect("shell");
    assert!(!shell.record_rendered_frame(None));
    assert!(!shell.record_rendered_frame(Some(Duration::from_millis(16))));
    assert!(!shell.record_rendered_frame(Some(Duration::from_millis(18))));
    assert_eq!(shell.render_interval_samples, 2);
    assert_eq!(shell.total_render_interval, Duration::from_millis(34));
    assert_eq!(shell.diagnostics.last_render_interval, Some(Duration::from_millis(18)));
    assert_eq!(
        ClientShell::new(ClientRuntimeConfig::default()).expect("shell").finish(None),
        Err("client exited without recording an exit reason".to_owned())
    );
    let mut failing = ClientShell::new(ClientRuntimeConfig::default()).expect("shell");
    failing.request_exit(ClientExitReason::CloseRequested);
    failing.record_fatal_error("gpu lost".to_owned());
    failing.record_fatal_error("later".to_owned());
    assert_eq!(failing.finish(None), Err("gpu lost".to_owned()));
}

#[test]
fn shell_refuses_a_zero_rate() {
    let mut config = ClientRuntimeConfig::default();
    config.fixed_step.simulation_rate_hz = 0;
    assert_eq!(
        ClientShell::new(config).err(),
        Some("simulation_rate_hz must be greater than zero".to_owned())
    );
}
