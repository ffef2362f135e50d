use wrela::wr_platform::clock::{Duration, FixedStepClock, FixedStepConfig};
use wrela::wr_platform::runtime::{
    ClientDiagnostics, ClientExitReason, ClientRunSummary, ClientRuntimeConfig, WindowConfig,
    WindowMode,
};
use wrela::wr_platform::{
    ActionEvent, ActionMap, ActionState, ActionTracker, EngineAction, GamepadControl, InputSignal,
    KeyboardControl, MouseControl, RawInput,
};
use wrela::wr_render_api::GraphicsAdapterInfo;

/// The average render interval in milliseconds, as the client writes it: the interval's
/// seconds as a double, times 1000, with two decimals.
fn render_millis(d: Duration) -> String {
    let nanos = d.as_nanos();
    let secs = (nanos / 1_000_000_000) as u64 as f64 + (nanos % 1_000_000_000) as u32 as f64 / 1_000_000_000.0;
    format!("{:.2}", secs * 1000.0)
}

#[test]
fn action_map_translates_keyboard_mouse_and_gamepad_inputs() {
    let action_map = ActionMap::default();

    assert_eq!(
        action_map.action_for(RawInput::Keyboard(KeyboardControl::KeyW)),
        Some(EngineAction::MoveForward)
    );
    assert_eq!(
        action_map.action_for(RawInput::Mouse(MouseControl::Left)),
        Some(EngineAction::LightAttack)
    );
    assert_eq!(
        action_map.action_for(RawInput::Gamepad(GamepadControl::West)),
        Some(EngineAction::Parry)
    );
}

#[test]
fn action_tracker_only_emits_edge_transitions() {
    let action_map = ActionMap::default();
    let mut tracker = ActionTracker::default();
    let press =
        InputSignal { input: RawInput::Keyboard(KeyboardControl::Space), state: ActionState::Pressed };
    let release = InputSignal {
        input: RawInput::Keyboard(KeyboardControl::Space),
        state: ActionState::Released,
    };

    let first_press = action_map.translate_signal(&mut tracker, press);
    let repeated_press = action_map.translate_signal(&mut tracker, press);
    let release_event = action_map.translate_signal(&mut tracker, release);
    let repeated_release = action_map.translate_signal(&mut tracker, release);

    assert_eq!(
        first_press,
        Some(ActionEvent {
            action: EngineAction::Jump,
            state: ActionState::Pressed,
            input: RawInput::Keyboard(KeyboardControl::Space),
        })
    );
    assert_eq!(repeated_press, None);
    assert_eq!(
        release_event,
        Some(ActionEvent {
            action: EngineAction::Jump,
            state: ActionState::Released,
            input: RawInput::Keyboard(KeyboardControl::Space),
        })
    );
    assert_eq!(repeated_release, None);
    assert!(!tracker.is_active(EngineAction::Jump));
}

#[test]
fn fixed_step_clock_emits_expected_steps_and_carry() {
    let config = FixedStepConfig { simulation_rate_hz: 60, max_catch_up_steps: 5 };
    let mut clock = FixedStepClock::new(config).expect("clock should build");
    let step = clock.step_duration();

    let first = clock.advance(step.checked_add(step).expect("two steps fit"));
    let second = clock.advance(step);

    assert_eq!(first.steps_to_run, 2);
    assert!(!first.backlog_saturated);
    assert_eq!(second.steps_to_run, 1);
}

#[test]
fn fixed_step_clock_caps_large_backlogs() {
    let config = FixedStepConfig { simulation_rate_hz: 60, max_catch_up_steps: 3 };
    let mut clock = FixedStepClock::new(config).expect("clock should build");
    let long_frame =
        clock.step_duration().checked_mul(10).expect("ten fixed steps should fit in a Duration");
    let decision = clock.advance(long_frame);

    assert_eq!(decision.steps_to_run, 3);
    assert!(decision.backlog_saturated);
    assert_eq!(decision.residual_time, Duration::zero());
}

#[test]
fn config_validation_rejects_zero_values() {
    let invalid_window = ClientRuntimeConfig {
        window: WindowConfig { width: 0, ..WindowConfig::default() },
        ..ClientRuntimeConfig::default()
    };
    let invalid_height = ClientRuntimeConfig {
        window: WindowConfig { height: 0, ..WindowConfig::default() },
        ..ClientRuntimeConfig::default()
    };
    let invalid_clock = FixedStepConfig { simulation_rate_hz: 0, max_catch_up_steps: 5 };

    assert_eq!(
        invalid_window.validate().expect_err("zero width should fail"),
        "window dimensions must be greater than zero"
    );
    assert_eq!(
        invalid_height.validate().expect_err("zero height should fail"),
        "window dimensions must be greater than zero"
    );
    assert_eq!(
        invalid_clock.validate().expect_err("zero rate should fail"),
        "simulation_rate_hz must be greater than zero"
    );
}

#[test]
fn summary_line_reports_the_core_diagnostics() {
    let summary = ClientRunSummary {
        exit_reason: ClientExitReason::AutoCloseAfterFixedUpdates(30),
        window_mode: WindowMode::Windowed,
        simulation_rate_hz: 120,
        diagnostics: ClientDiagnostics {
            fixed_updates: 30,
            rendered_frames: 15,
            resize_events: 2,
            focus_change_events: 1,
            backlog_saturation_events: 0,
            average_render_interval: Some(Duration::from_millis(16)),
            ..ClientDiagnostics::default()
        },
        graphics_adapter: Some(GraphicsAdapterInfo {
            backend: "metal".to_owned(),
            name: "test-adapter".to_owned(),
            device_type: "integrated_gpu".to_owned(),
            driver: Some("test-driver".to_owned()),
            driver_info: Some("test-driver-info".to_owned()),
            shading_language: "wgsl".to_owned(),
        }),
    };

    let line = summary.summary_line(render_millis);

    assert!(line.contains("exit=auto_close_after_fixed_updates(30)"));
    assert!(line.contains("window_mode=windowed"));
    assert!(line.contains("fixed_updates=30"));
    assert!(line.contains("rendered_frames=15"));
    assert!(line.contains("resize_events=2"));
    assert!(line.contains("focus_changes=1"));
    assert!(line.contains("avg_render_ms=16.00"));
    assert!(line.contains("backlog_saturations=0"));
    assert!(line.contains("adapter=metal:test-adapter"));
}

#[test]
fn platform_press_then_release_restores_the_tracker() {
    let action_map = ActionMap::default();
    let mut tracker = ActionTracker::default();
    let input = RawInput::Mouse(MouseControl::Right);
    let before = tracker.active_actions();
    action_map.translate_signal(&mut tracker, InputSignal { input, state: ActionState::Pressed });
    assert!(tracker.is_active(EngineAction::HeavyAttack));
    action_map.translate_signal(&mut tracker, InputSignal { input, state: ActionState::Released });
    assert_eq!(tracker.active_actions(), before);
}

#[test]
fn platform_rebinding_routes_the_input_to_the_new_action() {
    let mut action_map = ActionMap::default();
    let input = RawInput::Keyboard(KeyboardControl::KeyF);
    let previous = action_map.bind(input, EngineAction::Dash);
    assert_eq!(action_map.action_for(input), Some(EngineAction::Dash));
    assert_eq!(previous, Some(EngineAction::Parry));
}

#[test]
fn platform_clock_rejects_zero_settings_and_carries_remainders() {
    assert!(FixedStepClock::new(FixedStepConfig { simulation_rate_hz: 0, max_catch_up_steps: 1 })
        .is_err());
    assert_eq!(
        FixedStepConfig { simulation_rate_hz: 60, max_catch_up_steps: 0 }
            .validate()
            .expect_err("zero catch-up should fail"),
        "max_catch_up_steps must be greater than zero"
    );
    let mut clock =
        FixedStepClock::new(FixedStepConfig { simulation_rate_hz: 100, max_catch_up_steps: 5 })
            .expect("clock should build");
    assert_eq!(clock.step_duration(), Duration::from_millis(10));
    let first = clock.advance(Duration::from_millis(15));
    assert_eq!(first.steps_to_run, 1);
    assert_eq!(first.residual_time, Duration::from_millis(5));
    let second = clock.advance(Duration::from_millis(5));
    assert_eq!(second.steps_to_run, 1);
    assert_eq!(second.residual_time, Duration::zero());
}

#[test]
fn platform_summary_line_without_render_samples_or_adapter() {
    let summary = ClientRunSummary {
        exit_reason: ClientExitReason::CloseRequested,
        window_mode: WindowMode::Borderless,
        simulation_rate_hz: 60,
        diagnostics: ClientDiagnostics::default(),
        graphics_adapter: None,
    };
    assert_eq!(
        summary.summary_line(render_millis),
        "exit=close_requested window_mode=borderless fixed_updates=0 rendered_frames=0 resize_events=0 focus_changes=0 avg_render_ms=n/a backlog_saturations=0 adapter=unavailable"
    );
}

#[test]
fn platform_durations_convert_and_saturate() {
    assert_eq!(Duration::from_secs(2), Duration::from_millis(2000));
    assert_eq!(Duration::from_millis(3), Duration::from_nanos(3_000_000));
    assert_eq!(Duration::from_nanos(7).as_nanos(), 7);
    assert_eq!(Duration::max_value().checked_add(Duration::from_nanos(1)), None);
    assert_eq!(Duration::max_value().saturating_add(Duration::from_nanos(1)), Duration::max_value());
    assert_eq!(Duration::from_nanos(1).saturating_sub(Duration::from_nanos(2)), Duration::zero());
    assert_eq!(Duration::from_millis(2).checked_mul(3), Some(Duration::from_millis(6)));
}

#[test]
fn platform_summary_line_writes_the_interval_as_the_client_does() {
    let mut summary = ClientRunSummary {
        exit_reason: ClientExitReason::CloseRequested,
        window_mode: WindowMode::Borderless,
        simulation_rate_hz: 60,
        diagnostics: ClientDiagnostics::default(),
        graphics_adapter: None,
    };
    summary.diagnostics.average_render_interval = Some(Duration::from_nanos(1_005_000));
    assert!(summary.summary_line(render_millis).contains("avg_render_ms=1.01 "));
    summary.diagnostics.average_render_interval = Some(Duration::from_nanos(3_015_000));
    assert!(summary.summary_line(render_millis).contains("avg_render_ms=3.01 "));
    summary.diagnostics.average_render_interval = Some(Duration::from_millis(16));
    assert!(summary.summary_line(|_| "x".to_owned()).contains("avg_render_ms=x backlog"));
}

#[test]
fn platform_clock_banks_and_caps_catch_up() {
    let mut clock =
        FixedStepClock::new(FixedStepConfig { simulation_rate_hz: 60, max_catch_up_steps: 3 })
            .expect("clock should build");
    let step = clock.step_duration();
    let ten_steps = step.checked_mul(10).expect("ten steps fit");
    let decision = clock.advance(ten_steps);
    assert_eq!(decision.steps_to_run, 3);
    assert!(decision.backlog_saturated);
    assert_eq!(decision.residual_time, Duration::zero());

    let mut clock =
        FixedStepClock::new(FixedStepConfig { simulation_rate_hz: 60, max_catch_up_steps: 5 })
            .expect("clock should build");
    let step = clock.step_duration();
    let first = clock.advance(step.checked_mul(2).expect("two steps fit"));
    assert_eq!(first.steps_to_run, 2);
    assert!(!first.backlog_saturated);
    let second = clock.advance(step);
    assert_eq!(second.steps_to_run, 1);
    assert_eq!(second.residual_time, Duration::zero());
}
