use vstd::prelude::*;

use super::clock::{
    Duration, FixedStepClock, FixedStepDecision, banked_time, duration_max_nanos, step_nanos,
    step_duration_for_rate, steps_for, zero_catch_up_message, zero_rate_message,
};
use super::runtime::{
    ClientDiagnostics, ClientExitReason, ClientRunSummary, ClientRuntimeConfig, zero_diagnostics,
};
use super::{
    ActionMap, ActionState, ActionTracker, EngineAction, InputSignal, default_bindings, map_get,
    tracked_actions,
};
use crate::text::string_of;
use crate::wr_render_api::{ColorRgba8, GraphicsAdapterInfo};

verus! {

/// The decisions of the client shell: what each window event, render and pump of the event
/// loop does to the counters, the input state, the fixed-step clock and the exit request. The
/// event loop itself, the window and the renderer stay outside.
pub struct ClientShell {
    pub config: ClientRuntimeConfig,
    pub action_map: ActionMap,
    pub action_tracker: ActionTracker,
    pub fixed_step_clock: FixedStepClock,
    pub diagnostics: ClientDiagnostics,
    pub total_render_interval: Duration,
    pub render_interval_samples: u64,
    pub exit_reason: Option<ClientExitReason>,
    pub fatal_error: Option<String>,
}

/// The exit reason after asking to exit for `reason`: the first request is kept.
pub open spec fn exit_after_request(
    current: Option<ClientExitReason>,
    reason: ClientExitReason,
) -> Option<ClientExitReason> {
    match current {
        Some(r) => Some(r),
        None => Some(reason),
    }
}

/// The rate at which the shell asks for redraws.
pub const DEFAULT_RENDER_RATE_HZ: u32 = 60;

/// The time between two redraw requests: one sixtieth of a second.
pub fn render_interval() -> (r: Duration)
    ensures
        r@ == step_nanos(DEFAULT_RENDER_RATE_HZ as nat),
{
    step_duration_for_rate(DEFAULT_RENDER_RATE_HZ)
}

/// The colour the shell clears each frame to.
pub fn default_clear_color() -> (r: ColorRgba8)
    ensures
        r == (ColorRgba8 { red: 46, green: 78, blue: 126, alpha: 255 }),
{
    ColorRgba8::new(46, 78, 126, 255)
}

/// Whether a counter can take one more event.
pub open spec fn can_count(n: u64) -> bool {
    n < u64::MAX
}

impl ClientShell {
    /// A shell for `config` with default bindings, an idle tracker, an empty clock and zeroed
    /// counters; refused as the fixed-step clock refuses the configuration.
    pub fn new(config: ClientRuntimeConfig) -> (r: Result<Self, String>)
        ensures
            config.fixed_step.simulation_rate_hz == 0 ==> (r matches Err(m) && m@
                == zero_rate_message()),
            config.fixed_step.simulation_rate_hz != 0 && config.fixed_step.max_catch_up_steps
                == 0 ==> (r matches Err(m) && m@ == zero_catch_up_message()),
            config.fixed_step.simulation_rate_hz != 0 && config.fixed_step.max_catch_up_steps
                != 0 ==> (r matches Ok(s) && s.config == config
                && s.fixed_step_clock.spec_config() == config.fixed_step
                && s.fixed_step_clock.accumulated() == 0 && s.action_tracker@ == Set::<EngineAction>::empty() && s.action_map@ == default_bindings()
                && s.diagnostics == zero_diagnostics() && s.total_render_interval@
                == 0 && s.render_interval_samples == 0 && s.exit_reason.is_none()
                && s.fatal_error.is_none()),
    {
        let clock = match FixedStepClock::new(config.fixed_step) {
            Ok(c) => c,
            Err(e) => return Err(e),
        };
        let tracker = ActionTracker::default();
        Ok(
            ClientShell {
                config,
                action_map: ActionMap::default(),
                action_tracker: tracker,
                fixed_step_clock: clock,
                diagnostics: ClientDiagnostics::default(),
                total_render_interval: Duration::zero(),
                render_interval_samples: 0,
                exit_reason: None,
                fatal_error: None,
            },
        )
    }

    /// Asks the shell to exit for `reason`; an earlier request keeps its reason.
    pub fn request_exit(&mut self, reason: ClientExitReason)
        ensures
            *final(self) == (ClientShell {
                exit_reason: exit_after_request(old(self).exit_reason, reason),
                ..*old(self)
            }),
    {
        if self.exit_reason.is_none() {
            self.exit_reason = Some(reason);
        }
    }

    /// Counts a raw input and moves the input state; an action event is counted too, and a
    /// press of the overlay action flips the developer overlay.
    pub fn handle_input_signal(&mut self, signal: InputSignal)
        requires
            can_count(old(self).diagnostics.raw_input_events),
            can_count(old(self).diagnostics.action_events),
        ensures
            final(self).diagnostics.raw_input_events == old(self).diagnostics.raw_input_events
                + 1,
            match map_get(old(self).action_map@, signal.input) {
                None => final(self).action_tracker@ == old(self).action_tracker@,
                Some(action) => final(self).action_tracker@ == tracked_actions(
                    old(self).action_tracker@,
                    action,
                    signal.state,
                ),
            },
            ({
                let changed = final(self).action_tracker@ != old(self).action_tracker@;
                let toggled = changed && signal.state == ActionState::Pressed && map_get(
                    old(self).action_map@,
                    signal.input,
                ) == Some(EngineAction::ToggleDeveloperOverlay);
                &&& final(self).diagnostics.action_events == old(self).diagnostics.action_events
                    + if changed {
                    1int
                } else {
                    0
                }
                &&& final(self).diagnostics.overlay_visible == (old(
                    self,
                ).diagnostics.overlay_visible != toggled)
            }),
            final(self).diagnostics.fixed_updates == old(self).diagnostics.fixed_updates,
            final(self).diagnostics.rendered_frames == old(self).diagnostics.rendered_frames,
            final(self).exit_reason == old(self).exit_reason,
            final(self).action_map@ == old(self).action_map@,
    {
        self.diagnostics.raw_input_events = self.diagnostics.raw_input_events + 1;
        let event = self.action_map.translate_signal(&mut self.action_tracker, signal);
        match event {
            Some(e) => {
                self.diagnostics.action_events = self.diagnostics.action_events + 1;
                if e.action == EngineAction::ToggleDeveloperOverlay && e.state
                    == ActionState::Pressed {
                    self.diagnostics.overlay_visible = !self.diagnostics.overlay_visible;
                }
            },
            None => {},
        }
    }

    /// Records the window's focus; a change of focus is counted.
    pub fn record_focus(&mut self, focused: bool)
        requires
            can_count(old(self).diagnostics.focus_change_events),
        ensures
            final(self).diagnostics.focused == focused,
            final(self).diagnostics.focus_change_events == old(
                self,
            ).diagnostics.focus_change_events + if old(self).diagnostics.focused != focused {
                1int
            } else {
                0
            },
            final(self).diagnostics.resize_events == old(self).diagnostics.resize_events,
            final(self).exit_reason == old(self).exit_reason,
    {
        if self.diagnostics.focused != focused {
            self.diagnostics.focus_change_events = self.diagnostics.focus_change_events + 1;
            self.diagnostics.focused = focused;
        }
    }

    /// Counts a resize and records the new size.
    pub fn record_resize(&mut self, width: u32, height: u32)
        requires
            can_count(old(self).diagnostics.resize_events),
        ensures
            final(self).diagnostics.resize_events == old(self).diagnostics.resize_events + 1,
            final(self).diagnostics.last_window_size == (width, height),
            final(self).diagnostics.focus_change_events == old(
                self,
            ).diagnostics.focus_change_events,
            final(self).exit_reason == old(self).exit_reason,
    {
        self.diagnostics.resize_events = self.diagnostics.resize_events + 1;
        self.diagnostics.last_window_size = (width, height);
    }

    /// Records a failure that stops the shell; the first one is not replaced.
    pub fn record_fatal_error(&mut self, message: String)
        ensures
            final(self).fatal_error == match old(self).fatal_error {
                Some(e) => Some(e),
                None => Some(message),
            },
            final(self).exit_reason == old(self).exit_reason,
            final(self).diagnostics == old(self).diagnostics,
    {
        if self.fatal_error.is_none() {
            self.fatal_error = Some(message);
        }
    }

    /// Counts a rendered frame and, when there was an earlier one, records the interval since
    /// it and adds it to the running total (saturating); asks to exit once the frame count
    /// reaches the redraw limit. Returns whether the shell asked to exit.
    pub fn record_rendered_frame(&mut self, interval: Option<Duration>) -> (exit: bool)
        requires
            can_count(old(self).diagnostics.rendered_frames),
            can_count(old(self).render_interval_samples),
        ensures
            final(self).diagnostics.rendered_frames == old(self).diagnostics.rendered_frames + 1,
            match interval {
                Some(d) => {
                    &&& final(self).diagnostics.last_render_interval == Some(d)
                    &&& final(self).render_interval_samples == old(self).render_interval_samples
                        + 1
                    &&& final(self).total_render_interval@ == if old(self).total_render_interval@
                        + d@ > duration_max_nanos() {
                        duration_max_nanos()
                    } else {
                        old(self).total_render_interval@ + d@
                    }
                },
                None => {
                    &&& final(self).diagnostics.last_render_interval == old(
                        self,
                    ).diagnostics.last_render_interval
                    &&& final(self).render_interval_samples == old(self).render_interval_samples
                    &&& final(self).total_render_interval == old(self).total_render_interval
                },
            },
            exit == (old(self).config.auto_close_after_redraws matches Some(limit) && old(
                self,
            ).diagnostics.rendered_frames + 1 >= limit),
            exit ==> final(self).exit_reason == exit_after_request(
                old(self).exit_reason,
                ClientExitReason::AutoCloseAfterRedraws(
                    old(self).config.auto_close_after_redraws->0,
                ),
            ),
            !exit ==> final(self).exit_reason == old(self).exit_reason,
            final(self).diagnostics.fixed_updates == old(self).diagnostics.fixed_updates,
            final(self).config == old(self).config,
    {
        self.diagnostics.rendered_frames = self.diagnostics.rendered_frames + 1;
        match interval {
            Some(d) => {
                self.diagnostics.last_render_interval = Some(d);
                self.total_render_interval = self.total_render_interval.saturating_add(d);
                self.render_interval_samples = self.render_interval_samples + 1;
            },
            None => {},
        }
        match self.config.auto_close_after_redraws {
            Some(limit) => {
                if self.diagnostics.rendered_frames >= limit {
                    self.request_exit(ClientExitReason::AutoCloseAfterRedraws(limit));
                    return true;
                }
                false
            },
            None => false,
        }
    }

    /// Feeds `elapsed` to the fixed-step clock and counts what it decided: a saturated
    /// backlog, the steps run and the largest number of steps in one pump; asks to exit once
    /// the step count reaches the fixed-update limit. Returns the clock's decision and whether
    /// the shell asked to exit.
    pub fn pump(&mut self, elapsed: Duration) -> (r: (FixedStepDecision, bool))
        requires
            old(self).diagnostics.fixed_updates <= u64::MAX - u32::MAX,
            can_count(old(self).diagnostics.backlog_saturation_events),
        ensures
            ({
                let d = r.0;
                let step = step_nanos(old(self).fixed_step_clock.spec_config().simulation_rate_hz as nat);
                let max = old(self).fixed_step_clock.spec_config().max_catch_up_steps as nat;
                let banked = banked_time(old(self).fixed_step_clock.accumulated(), elapsed@, step, max);
                &&& d.steps_to_run == steps_for(banked, step, max)
                &&& d.residual_time@ == banked - steps_for(banked, step, max) * step
                &&& final(self).fixed_step_clock.accumulated() == d.residual_time@
                &&& final(self).fixed_step_clock.spec_config() == old(self).fixed_step_clock.spec_config()
                &&& final(self).diagnostics.fixed_updates == old(self).diagnostics.fixed_updates
                    + d.steps_to_run
                &&& final(self).diagnostics.backlog_saturation_events == old(
                    self,
                ).diagnostics.backlog_saturation_events + if d.backlog_saturated {
                    1int
                } else {
                    0
                }
                &&& final(self).diagnostics.max_fixed_updates_per_pump == if d.steps_to_run
                    > old(self).diagnostics.max_fixed_updates_per_pump {
                    d.steps_to_run
                } else {
                    old(self).diagnostics.max_fixed_updates_per_pump
                }
                &&& r.1 == (old(self).config.auto_close_after_fixed_updates matches Some(limit)
                    && final(self).diagnostics.fixed_updates >= limit)
                &&& r.1 ==> final(self).exit_reason == exit_after_request(
                    old(self).exit_reason,
                    ClientExitReason::AutoCloseAfterFixedUpdates(
                        old(self).config.auto_close_after_fixed_updates->0,
                    ),
                )
                &&& !r.1 ==> final(self).exit_reason == old(self).exit_reason
            }),
            final(self).diagnostics.rendered_frames == old(self).diagnostics.rendered_frames,
            final(self).config == old(self).config,
    {
        let decision = self.fixed_step_clock.advance(elapsed);
        if decision.backlog_saturated {
            self.diagnostics.backlog_saturation_events = self.diagnostics.backlog_saturation_events
                + 1;
        }
        if decision.steps_to_run > self.diagnostics.max_fixed_updates_per_pump {
            self.diagnostics.max_fixed_updates_per_pump = decision.steps_to_run;
        }
        self.diagnostics.fixed_updates = self.diagnostics.fixed_updates
            + decision.steps_to_run as u64;
        match self.config.auto_close_after_fixed_updates {
            Some(limit) => {
                if self.diagnostics.fixed_updates >= limit {
                    self.request_exit(ClientExitReason::AutoCloseAfterFixedUpdates(limit));
                    return (decision, true);
                }
                (decision, false)
            },
            None => (decision, false),
        }
    }

    /// The run's summary: refused with the fatal error if there was one, or when no exit was
    /// requested; otherwise the exit reason, window mode, rate, counters and adapter.
    pub fn finish(self, graphics_adapter: Option<GraphicsAdapterInfo>) -> (r: Result<
        ClientRunSummary,
        String,
    >)
        ensures
            self.fatal_error is Some ==> r == Err::<ClientRunSummary, String>(self.fatal_error->0),
            self.fatal_error is None && self.exit_reason is None ==> (r matches Err(e) && e@
                == "client exited without recording an exit reason"@),
            self.fatal_error is None && self.exit_reason is Some ==> r == Ok::<
                ClientRunSummary,
                String,
            >(
                ClientRunSummary {
                    exit_reason: self.exit_reason->0,
                    window_mode: self.config.window.mode,
                    simulation_rate_hz: self.config.fixed_step.simulation_rate_hz,
                    diagnostics: self.diagnostics,
                    graphics_adapter,
                },
            ),
    {
        match self.fatal_error {
            Some(e) => Err(e),
            None => match self.exit_reason {
                None => Err(string_of("client exited without recording an exit reason")),
                Some(exit_reason) => Ok(
                    ClientRunSummary {
                        exit_reason,
                        window_mode: self.config.window.mode,
                        simulation_rate_hz: self.config.fixed_step.simulation_rate_hz,
                        diagnostics: self.diagnostics,
                        graphics_adapter,
                    },
                ),
            },
        }
    }
}

/// Once the shell has asked to exit, later requests keep the first reason.
pub proof fn lemma_first_exit_reason_sticks(
    current: Option<ClientExitReason>,
    first: ClientExitReason,
    later: ClientExitReason,
)
    ensures
        exit_after_request(exit_after_request(current, first), later) == exit_after_request(
            current,
            first,
        ),
{
}

} // verus!
