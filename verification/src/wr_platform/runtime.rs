use vstd::prelude::*;

use super::clock::{Duration, FixedStepConfig, zero_catch_up_message, zero_rate_message};
use crate::text::{decimal, push_decimal, push_str, string_of};
use crate::wr_render_api::GraphicsAdapterInfo;

verus! {

/// How the client window is presented.
#[derive(Debug, Clone, Copy, PartialEq, Eq, Structural)]
pub enum WindowMode {
    Windowed,
    Borderless,
}

/// The stable name of a window mode.
pub open spec fn window_mode_str(m: WindowMode) -> Seq<char> {
    match m {
        WindowMode::Windowed => "windowed"@,
        WindowMode::Borderless => "borderless"@,
    }
}

impl WindowMode {
    /// The stable name of the mode.
    pub fn as_str(self) -> (r: &'static str)
        ensures
            r@ == window_mode_str(self),
    {
        match self {
            WindowMode::Windowed => "windowed",
            WindowMode::Borderless => "borderless",
        }
    }
}

/// The client window's title, size and mode.
#[derive(Debug, Clone, PartialEq, Eq)]
pub struct WindowConfig {
    pub title: String,
    pub width: u32,
    pub height: u32,
    pub mode: WindowMode,
}

/// The title of the default window.
pub open spec fn default_window_title() -> Seq<char> {
    "Wrela v0 Bootstrap Client"@
}

impl Default for WindowConfig {
    fn default() -> (r: Self)
        ensures
            r.title@ == default_window_title(),
            r.width == 1280,
            r.height == 720,
            r.mode == WindowMode::Windowed,
    {
        WindowConfig {
            title: string_of("Wrela v0 Bootstrap Client"),
            width: 1280,
            height: 720,
            mode: WindowMode::Windowed,
        }
    }
}

/// Everything the client shell needs to run.
#[derive(Debug, Clone, PartialEq, Eq)]
pub struct ClientRuntimeConfig {
    pub window: WindowConfig,
    pub fixed_step: FixedStepConfig,
    pub auto_close_after_fixed_updates: Option<u64>,
    pub auto_close_after_redraws: Option<u64>,
}

impl Default for ClientRuntimeConfig {
    fn default() -> (r: Self)
        ensures
            r.window.title@ == default_window_title(),
            r.window.width == 1280,
            r.window.height == 720,
            r.window.mode == WindowMode::Windowed,
            r.fixed_step == (FixedStepConfig { simulation_rate_hz: 120, max_catch_up_steps: 5 }),
            r.auto_close_after_fixed_updates.is_none(),
            r.auto_close_after_redraws.is_none(),
    {
        ClientRuntimeConfig {
            window: WindowConfig::default(),
            fixed_step: FixedStepConfig::default(),
            auto_close_after_fixed_updates: None,
            auto_close_after_redraws: None,
        }
    }
}

/// The message for a window with a zero side.
pub open spec fn zero_window_message() -> Seq<char> {
    "window dimensions must be greater than zero"@
}

/// The outcome of validating a runtime configuration: the fixed-step settings first, then the
/// window size.
pub open spec fn runtime_config_error(c: ClientRuntimeConfig) -> Option<Seq<char>> {
    if c.fixed_step.simulation_rate_hz == 0 {
        Some(zero_rate_message())
    } else if c.fixed_step.max_catch_up_steps == 0 {
        Some(zero_catch_up_message())
    } else if c.window.width == 0 || c.window.height == 0 {
        Some(zero_window_message())
    } else {
        None
    }
}

impl ClientRuntimeConfig {
    /// Accepts a configuration with a positive rate, a positive catch-up limit and a window
    /// with two positive sides.
    pub fn validate(&self) -> (r: Result<(), String>)
        ensures
            match runtime_config_error(*self) {
                Some(m) => r matches Err(e) && e@ == m,
                None => r is Ok,
            },
    {
        match self.fixed_step.validate() {
            Ok(_) => {},
            Err(e) => return Err(e),
        }
        if self.window.width == 0 || self.window.height == 0 {
            return Err(string_of("window dimensions must be greater than zero"));
        }
        Ok(())
    }
}

/// Counters the client shell keeps while it runs.
#[derive(Debug, Clone, Copy, PartialEq, Eq)]
pub struct ClientDiagnostics {
    pub fixed_updates: u64,
    pub rendered_frames: u64,
    pub raw_input_events: u64,
    pub action_events: u64,
    pub resize_events: u64,
    pub focus_change_events: u64,
    pub backlog_saturation_events: u64,
    pub max_fixed_updates_per_pump: u32,
    pub average_render_interval: Option<Duration>,
    pub last_render_interval: Option<Duration>,
    pub last_window_size: (u32, u32),
    pub focused: bool,
    pub overlay_visible: bool,
}

/// The counters of a shell that has seen nothing: all zero, no intervals, no window size,
/// unfocused, overlay hidden.
pub open spec fn zero_diagnostics() -> ClientDiagnostics {
    ClientDiagnostics {
        fixed_updates: 0,
        rendered_frames: 0,
        raw_input_events: 0,
        action_events: 0,
        resize_events: 0,
        focus_change_events: 0,
        backlog_saturation_events: 0,
        max_fixed_updates_per_pump: 0,
        average_render_interval: None,
        last_render_interval: None,
        last_window_size: (0, 0),
        focused: false,
        overlay_visible: false,
    }
}

impl Default for ClientDiagnostics {
    fn default() -> (r: Self)
        ensures
            r == zero_diagnostics(),
    {
        ClientDiagnostics {
            fixed_updates: 0,
            rendered_frames: 0,
            raw_input_events: 0,
            action_events: 0,
            resize_events: 0,
            focus_change_events: 0,
            backlog_saturation_events: 0,
            max_fixed_updates_per_pump: 0,
            average_render_interval: None,
            last_render_interval: None,
            last_window_size: (0, 0),
            focused: false,
            overlay_visible: false,
        }
    }
}

/// Why the client shell stopped.
#[derive(Debug, Clone, Copy, PartialEq, Eq, Structural)]
pub enum ClientExitReason {
    CloseRequested,
    AutoCloseAfterFixedUpdates(u64),
    AutoCloseAfterRedraws(u64),
}

/// The text that `Display` gives for an exit reason.
pub open spec fn exit_reason_text(e: ClientExitReason) -> Seq<char> {
    match e {
        ClientExitReason::CloseRequested => "close_requested"@,
        ClientExitReason::AutoCloseAfterFixedUpdates(limit) => "auto_close_after_fixed_updates("@
            + decimal(limit as nat) + ")"@,
        ClientExitReason::AutoCloseAfterRedraws(limit) => "auto_close_after_redraws("@ + decimal(
            limit as nat,
        ) + ")"@,
    }
}

impl ClientExitReason {
    /// The reason's text.
    pub fn to_string(&self) -> (r: String)
        ensures
            r@ == exit_reason_text(*self),
    {
        match self {
            ClientExitReason::CloseRequested => string_of("close_requested"),
            ClientExitReason::AutoCloseAfterFixedUpdates(limit) => {
                let mut r = string_of("auto_close_after_fixed_updates(");
                push_decimal(&mut r, *limit);
                push_str(&mut r, ")");
                r
            },
            ClientExitReason::AutoCloseAfterRedraws(limit) => {
                let mut r = string_of("auto_close_after_redraws(");
                push_decimal(&mut r, *limit);
                push_str(&mut r, ")");
                r
            },
        }
    }
}

/// What a finished client run reports.
#[derive(Debug, Clone, PartialEq, Eq)]
pub struct ClientRunSummary {
    pub exit_reason: ClientExitReason,
    pub window_mode: WindowMode,
    pub simulation_rate_hz: u32,
    pub diagnostics: ClientDiagnostics,
    pub graphics_adapter: Option<GraphicsAdapterInfo>,
}

/// The diagnostics line of a client run, with `average_ms` written for the average render
/// interval when there is one.
pub open spec fn summary_text(s: ClientRunSummary, average_ms: Seq<char>) -> Seq<char> {
    let d = s.diagnostics;
    "exit="@ + exit_reason_text(s.exit_reason) + " window_mode="@ + window_mode_str(
        s.window_mode,
    ) + " fixed_updates="@ + decimal(d.fixed_updates as nat) + " rendered_frames="@ + decimal(
        d.rendered_frames as nat,
    ) + " resize_events="@ + decimal(d.resize_events as nat) + " focus_changes="@ + decimal(
        d.focus_change_events as nat,
    ) + " avg_render_ms="@ + match d.average_render_interval {
        Some(_) => average_ms,
        None => "n/a"@,
    } + " backlog_saturations="@ + decimal(d.backlog_saturation_events as nat) + " adapter="@
        + match s.graphics_adapter {
        Some(a) => a.backend@ + ":"@ + a.name@,
        None => "unavailable"@,
    }
}

impl ClientRunSummary {
    /// The diagnostics line: exit reason, window mode, counters, average render interval and
    /// adapter. `millis_text` writes the average render interval in milliseconds with two
    /// decimals, as `{:.2}` writes the interval's seconds as a double times 1000.
    pub fn summary_line<M: Fn(Duration) -> String>(&self, millis_text: M) -> (r: String)
        requires
            forall|d: Duration| call_requires(millis_text, (d,)),
        ensures
            match self.diagnostics.average_render_interval {
                Some(interval) => exists|t: String|
                    call_ensures(millis_text, (interval,), t) && r@ == summary_text(*self, t@),
                None => r@ == summary_text(*self, "n/a"@),
            },
    {
        let d = &self.diagnostics;
        let mut r = string_of("exit=");
        let reason = self.exit_reason.to_string();
        push_str(&mut r, reason.as_str());
        push_str(&mut r, " window_mode=");
        push_str(&mut r, self.window_mode.as_str());
        push_str(&mut r, " fixed_updates=");
        push_decimal(&mut r, d.fixed_updates);
        push_str(&mut r, " rendered_frames=");
        push_decimal(&mut r, d.rendered_frames);
        push_str(&mut r, " resize_events=");
        push_decimal(&mut r, d.resize_events);
        push_str(&mut r, " focus_changes=");
        push_decimal(&mut r, d.focus_change_events);
        push_str(&mut r, " avg_render_ms=");
        let mut average: Option<String> = None;
        match d.average_render_interval {
            Some(interval) => {
                let t = millis_text(interval);
                push_str(&mut r, t.as_str());
                average = Some(t);
            },
            None => push_str(&mut r, "n/a"),
        }
        push_str(&mut r, " backlog_saturations=");
        push_decimal(&mut r, d.backlog_saturation_events);
        push_str(&mut r, " adapter=");
        match &self.graphics_adapter {
            Some(a) => {
                push_str(&mut r, a.backend.as_str());
                push_str(&mut r, ":");
                push_str(&mut r, a.name.as_str());
            },
            None => push_str(&mut r, "unavailable"),
        }
        match average {
            Some(t) => {
                assert(r@ =~= summary_text(*self, t@));
            },
            None => {
                assert(r@ =~= summary_text(*self, "n/a"@));
            },
        }
        r
    }
}

} // verus!
