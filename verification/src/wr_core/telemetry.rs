use vstd::prelude::*;

use crate::text::{ascii_lower_seq, push_str, str_eq, string_of, trim, trimmed_lowercase};

verus! {

/// The environment variable that switches metrics on or off.
pub const ENV_ENABLE_METRICS: &'static str = "WRELA_ENABLE_METRICS";

/// The environment variable that switches tracing on or off.
pub const ENV_ENABLE_TRACING: &'static str = "WRELA_ENABLE_TRACING";

/// The environment variable that selects the profiler backend.
pub const ENV_PROFILER: &'static str = "WRELA_PROFILER";

/// Why a telemetry setting from the environment was refused.
#[derive(Debug, Clone, PartialEq, Eq)]
pub enum TelemetryConfigError {
    InvalidBoolean { env: &'static str, value: String },
    InvalidProfilerBackend { value: String },
}

/// The text that `Display` gives for a telemetry configuration error.
pub open spec fn telemetry_error_text(e: TelemetryConfigError) -> Seq<char> {
    match e {
        TelemetryConfigError::InvalidBoolean { env, value } => "environment variable `"@ + env@
            + "` expected a boolean value, found `"@ + value@ + "`"@,
        TelemetryConfigError::InvalidProfilerBackend { value } => "environment variable `"@
            + ENV_PROFILER@ + "` expected `disabled` or `tracy`, found `"@ + value@ + "`"@,
    }
}

impl TelemetryConfigError {
    /// The error's message.
    pub fn to_string(&self) -> (r: String)
        ensures
            r@ == telemetry_error_text(*self),
    {
        match self {
            TelemetryConfigError::InvalidBoolean { env, value } => {
                let mut r = string_of("environment variable `");
                push_str(&mut r, env);
                push_str(&mut r, "` expected a boolean value, found `");
                push_str(&mut r, value.as_str());
                push_str(&mut r, "`");
                r
            },
            TelemetryConfigError::InvalidProfilerBackend { value } => {
                let mut r = string_of("environment variable `");
                push_str(&mut r, ENV_PROFILER);
                push_str(&mut r, "` expected `disabled` or `tracy`, found `");
                push_str(&mut r, value.as_str());
                push_str(&mut r, "`");
                r
            },
        }
    }
}

/// Which profiler the runtime starts.
#[derive(Debug, Clone, Copy, PartialEq, Eq, Structural)]
pub enum ProfilerBackend {
    Disabled,
    Tracy,
}

impl Default for ProfilerBackend {
    fn default() -> (r: Self)
        ensures
            r == ProfilerBackend::Disabled,
    {
        ProfilerBackend::Disabled
    }
}

/// The backend that a profiler setting names, after trimming and lowering ASCII letters:
/// empty, `disabled`, `off` and `none` disable it, `tracy` selects Tracy.
pub open spec fn profiler_backend_from(value: Seq<char>) -> Option<ProfilerBackend> {
    let v = ascii_lower_seq(trim(value));
    if v == ""@ || v == "disabled"@ || v == "off"@ || v == "none"@ {
        Some(ProfilerBackend::Disabled)
    } else if v == "tracy"@ {
        Some(ProfilerBackend::Tracy)
    } else {
        None
    }
}

/// The switch value that a boolean setting names, after trimming and lowering ASCII letters.
pub open spec fn switch_from(value: Seq<char>) -> Option<bool> {
    let v = ascii_lower_seq(trim(value));
    if v == "1"@ || v == "true"@ || v == "yes"@ || v == "on"@ {
        Some(true)
    } else if v == "0"@ || v == "false"@ || v == "no"@ || v == "off"@ {
        Some(false)
    } else {
        None
    }
}

impl ProfilerBackend {
    /// Reads a profiler setting.
    pub fn parse_env(value: &str) -> (r: Result<Self, TelemetryConfigError>)
        ensures
            match profiler_backend_from(value@) {
                Some(b) => r == Ok::<ProfilerBackend, TelemetryConfigError>(b),
                None => r matches Err(TelemetryConfigError::InvalidProfilerBackend { value: v })
                    && v@ == value@,
            },
    {
        let v = trimmed_lowercase(value);
        let s = v.as_str();
        if str_eq(s, "") || str_eq(s, "disabled") || str_eq(s, "off") || str_eq(s, "none") {
            Ok(ProfilerBackend::Disabled)
        } else if str_eq(s, "tracy") {
            Ok(ProfilerBackend::Tracy)
        } else {
            Err(TelemetryConfigError::InvalidProfilerBackend { value: string_of(value) })
        }
    }
}

/// Reads a boolean setting of the environment variable `env`.
pub fn parse_bool_env(env: &'static str, value: &str) -> (r: Result<bool, TelemetryConfigError>)
    ensures
        match switch_from(value@) {
            Some(b) => r == Ok::<bool, TelemetryConfigError>(b),
            None => r matches Err(TelemetryConfigError::InvalidBoolean { env: e, value: v }) && e
                == env && v@ == value@,
        },
{
    let v = trimmed_lowercase(value);
    let s = v.as_str();
    if str_eq(s, "1") || str_eq(s, "true") || str_eq(s, "yes") || str_eq(s, "on") {
        Ok(true)
    } else if str_eq(s, "0") || str_eq(s, "false") || str_eq(s, "no") || str_eq(s, "off") {
        Ok(false)
    } else {
        Err(TelemetryConfigError::InvalidBoolean { env, value: string_of(value) })
    }
}

/// What the runtime records: metrics, traces and which profiler runs.
#[derive(Debug, Clone, PartialEq, Eq, Structural)]
pub struct TelemetryConfig {
    pub enable_metrics: bool,
    pub enable_tracing: bool,
    pub profiler_backend: ProfilerBackend,
}

impl TelemetryConfig {
    /// The default of a build: metrics on, tracing on in debug builds only, no profiler.
    pub fn for_build(debug_build: bool) -> (r: Self)
        ensures
            r.enable_metrics,
            r.enable_tracing == debug_build,
            r.profiler_backend == ProfilerBackend::Disabled,
    {
        TelemetryConfig {
            enable_metrics: true,
            enable_tracing: debug_build,
            profiler_backend: ProfilerBackend::Disabled,
        }
    }

    /// The headless default: metrics and tracing on, no profiler.
    pub fn headless_default() -> (r: Self)
        ensures
            r.enable_metrics,
            r.enable_tracing,
            r.profiler_backend == ProfilerBackend::Disabled,
    {
        TelemetryConfig {
            enable_metrics: true,
            enable_tracing: true,
            profiler_backend: ProfilerBackend::Disabled,
        }
    }

    /// The build default with the environment's settings applied: `enable_metrics`,
    /// `enable_tracing` and `profiler` are the values of the three variables, where set.
    pub fn from_env(
        debug_build: bool,
        enable_metrics: Option<&str>,
        enable_tracing: Option<&str>,
        profiler: Option<&str>,
    ) -> (r: Result<Self, TelemetryConfigError>)
        ensures
            env_overrides_outcome(
                TelemetryConfig::for_build_value(debug_build),
                enable_metrics,
                enable_tracing,
                profiler,
                match r {
                    Ok(c) => c,
                    Err(_) => TelemetryConfig::for_build_value(debug_build),
                },
                match r {
                    Ok(_) => Ok(()),
                    Err(e) => Err(e),
                },
            ),
    {
        let mut config = TelemetryConfig::for_build(debug_build);
        match config.apply_env_overrides(enable_metrics, enable_tracing, profiler) {
            Ok(()) => Ok(config),
            Err(e) => Err(e),
        }
    }

    /// The headless default with the environment's settings applied, as `from_env`.
    pub fn headless_from_env(
        enable_metrics: Option<&str>,
        enable_tracing: Option<&str>,
        profiler: Option<&str>,
    ) -> (r: Result<Self, TelemetryConfigError>)
        ensures
            env_overrides_outcome(
                TelemetryConfig::headless_value(),
                enable_metrics,
                enable_tracing,
                profiler,
                match r {
                    Ok(c) => c,
                    Err(_) => TelemetryConfig::headless_value(),
                },
                match r {
                    Ok(_) => Ok(()),
                    Err(e) => Err(e),
                },
            ),
    {
        let mut config = TelemetryConfig::headless_default();
        match config.apply_env_overrides(enable_metrics, enable_tracing, profiler) {
            Ok(()) => Ok(config),
            Err(e) => Err(e),
        }
    }

    /// The default of a build.
    pub open spec fn for_build_value(debug_build: bool) -> TelemetryConfig {
        TelemetryConfig {
            enable_metrics: true,
            enable_tracing: debug_build,
            profiler_backend: ProfilerBackend::Disabled,
        }
    }

    /// The headless default.
    pub open spec fn headless_value() -> TelemetryConfig {
        TelemetryConfig {
            enable_metrics: true,
            enable_tracing: true,
            profiler_backend: ProfilerBackend::Disabled,
        }
    }

    /// Applies the settings that the environment holds, in the order metrics, tracing,
    /// profiler; the first refused setting is the error.
    pub fn apply_env_overrides(
        &mut self,
        enable_metrics: Option<&str>,
        enable_tracing: Option<&str>,
        profiler: Option<&str>,
    ) -> (r: Result<(), TelemetryConfigError>)
        ensures
            env_overrides_outcome(
                *old(self),
                enable_metrics,
                enable_tracing,
                profiler,
                *final(self),
                r,
            ),
    {
        if let Some(value) = enable_metrics {
            self.enable_metrics = parse_bool_env(ENV_ENABLE_METRICS, value)?;
        }
        if let Some(value) = enable_tracing {
            self.enable_tracing = parse_bool_env(ENV_ENABLE_TRACING, value)?;
        }
        if let Some(value) = profiler {
            self.profiler_backend = ProfilerBackend::parse_env(value)?;
        }
        Ok(())
    }
}

/// The result of applying environment settings to `before`: on success `after` holds each
/// given setting and keeps the rest; the error is that of the first refused setting.
pub open spec fn env_overrides_outcome(
    before: TelemetryConfig,
    enable_metrics: Option<&str>,
    enable_tracing: Option<&str>,
    profiler: Option<&str>,
    after: TelemetryConfig,
    r: Result<(), TelemetryConfigError>,
) -> bool {
    let metrics = match enable_metrics {
        Some(v) => switch_from(v@),
        None => Some(before.enable_metrics),
    };
    let tracing = match enable_tracing {
        Some(v) => switch_from(v@),
        None => Some(before.enable_tracing),
    };
    let backend = match profiler {
        Some(v) => profiler_backend_from(v@),
        None => Some(before.profiler_backend),
    };
    if metrics is None {
        r matches Err(TelemetryConfigError::InvalidBoolean { env, value }) && env
            == ENV_ENABLE_METRICS && value@ == enable_metrics.unwrap()@
    } else if tracing is None {
        r matches Err(TelemetryConfigError::InvalidBoolean { env, value }) && env
            == ENV_ENABLE_TRACING && value@ == enable_tracing.unwrap()@
    } else if backend is None {
        r matches Err(TelemetryConfigError::InvalidProfilerBackend { value }) && value@
            == profiler.unwrap()@
    } else {
        &&& r is Ok
        &&& after == (TelemetryConfig {
            enable_metrics: metrics.unwrap(),
            enable_tracing: tracing.unwrap(),
            profiler_backend: backend.unwrap(),
        })
    }
}

} // verus!
