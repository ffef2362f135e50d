use vstd::prelude::*;

pub mod verification;

use crate::text::{push_str, string_of};
use crate::wr_core::{CrateBoundary, CrateEntryPoint, entry_card};
use crate::wr_core::telemetry::{ProfilerBackend, TelemetryConfig};

verus! {

/// The entry point of the telemetry crate: a subsystem, not integration-only.
pub fn init_entrypoint() -> (r: CrateEntryPoint)
    ensures
        entry_card(r, "wr_telemetry"@, CrateBoundary::Subsystem, false),
{
    CrateEntryPoint::new("wr_telemetry", CrateBoundary::Subsystem, false)
}

/// The operating system a run happened on.
#[derive(Debug, Clone, PartialEq, Eq)]
pub struct PlatformMetadata {
    pub os: String,
    pub family: String,
    pub arch: String,
}

/// When a run started and finished, in Unix milliseconds.
#[derive(Debug, Clone, Copy, PartialEq, Eq, Structural)]
pub struct RunTimestamps {
    pub started_at_unix_ms: u64,
    pub completed_at_unix_ms: u64,
}

/// The seed a run used.
#[derive(Debug, Clone, PartialEq, Eq)]
pub struct SeedInfo {
    pub label: String,
    pub value_hex: String,
    pub stream: Option<String>,
}

impl SeedInfo {
    /// A seed record without a stream name.
    pub fn new(label: &str, value_hex: &str) -> (r: Self)
        ensures
            r.label@ == label@,
            r.value_hex@ == value_hex@,
            r.stream.is_none(),
    {
        SeedInfo { label: string_of(label), value_hex: string_of(value_hex), stream: None }
    }
}

/// Where and when a command ran.
#[derive(Debug, Clone, PartialEq, Eq)]
pub struct RunMetadata {
    pub command_name: String,
    pub run_id: String,
    pub git_sha: String,
    pub cwd: String,
    pub platform: PlatformMetadata,
    pub timestamps: RunTimestamps,
    pub notes: Option<Vec<String>>,
}

impl RunMetadata {
    /// Run metadata without notes.
    pub fn new(
        command_name: &str,
        run_id: &str,
        git_sha: String,
        cwd: String,
        platform: PlatformMetadata,
        timestamps: RunTimestamps,
    ) -> (r: Self)
        ensures
            r.command_name@ == command_name@,
            r.run_id@ == run_id@,
            r.git_sha == git_sha,
            r.cwd == cwd,
            r.platform == platform,
            r.timestamps == timestamps,
            r.notes.is_none(),
    {
        RunMetadata {
            command_name: string_of(command_name),
            run_id: string_of(run_id),
            git_sha,
            cwd,
            platform,
            timestamps,
            notes: None,
        }
    }
}

/// Why a trace capture could not start.
#[derive(Debug, Clone, PartialEq, Eq)]
pub enum TraceCaptureError {
    Io(String),
    ProfilerUnavailable(&'static str),
}

/// The text that `Display` gives for a trace capture error.
pub open spec fn trace_error_text(e: TraceCaptureError) -> Seq<char> {
    match e {
        TraceCaptureError::Io(error) => "i/o error: "@ + error@,
        TraceCaptureError::ProfilerUnavailable(reason) => reason@,
    }
}

impl TraceCaptureError {
    /// The error's message.
    pub fn to_string(&self) -> (r: String)
        ensures
            r@ == trace_error_text(*self),
    {
        match self {
            TraceCaptureError::Io(error) => {
                let mut r = string_of("i/o error: ");
                push_str(&mut r, error.as_str());
                r
            },
            TraceCaptureError::ProfilerUnavailable(reason) => string_of(reason),
        }
    }
}

/// The reason given when Tracy is asked for in a build without it.
pub fn tracy_unavailable() -> (r: TraceCaptureError)
    ensures
        r == tracy_unavailable_error(),
{
    TraceCaptureError::ProfilerUnavailable(
        "tracy profiling requested but wr_telemetry was built without the `tracy` feature",
    )
}

/// A running profiler session and the backend it uses.
#[derive(Debug)]
pub struct ProfilerSession {
    active_backend: ProfilerBackend,
}

impl View for ProfilerSession {
    type V = ProfilerBackend;

    closed spec fn view(&self) -> ProfilerBackend {
        self.active_backend
    }
}

impl ProfilerSession {
    /// Starts the profiler the configuration asks for: none starts a disabled session; Tracy
    /// is refused, as this build has no Tracy support.
    pub fn start(config: &TelemetryConfig) -> (r: Result<Self, TraceCaptureError>)
        ensures
            config.profiler_backend == ProfilerBackend::Disabled ==> (r matches Ok(s) && s@
                == ProfilerBackend::Disabled),
            config.profiler_backend == ProfilerBackend::Tracy ==> (r matches Err(e) && e
                == tracy_unavailable_error()),
    {
        match config.profiler_backend {
            ProfilerBackend::Disabled => Ok(ProfilerSession { active_backend: ProfilerBackend::Disabled }),
            ProfilerBackend::Tracy => Err(tracy_unavailable()),
        }
    }

    /// The backend the session uses.
    pub fn active_backend(&self) -> (r: ProfilerBackend)
        ensures
            r == self@,
    {
        self.active_backend
    }
}

/// The error for a Tracy request in a build without Tracy.
pub open spec fn tracy_unavailable_error() -> TraceCaptureError {
    TraceCaptureError::ProfilerUnavailable(
        "tracy profiling requested but wr_telemetry was built without the `tracy` feature",
    )
}

/// The index of the `percentile`-th percentile in a sorted list of `len` samples: zero for
/// one sample or none, otherwise `(len - 1) * percentile / 100`.
pub fn percentile_index(len: usize, percentile: usize) -> (r: usize)
    requires
        len <= 1 || (len - 1) * percentile <= usize::MAX,
    ensures
        r == if len <= 1 {
            0
        } else {
            ((len - 1) * percentile / 100) as usize
        },
{
    if len <= 1 {
        return 0;
    }
    ((len - 1) * percentile) / 100
}

/// An estimate of the memory a frame used.
#[derive(Debug, Clone, Copy, PartialEq, Eq, Structural)]
pub struct FrameMemorySnapshot {
    pub estimated_total_bytes: u64,
}

impl Default for FrameMemorySnapshot {
    fn default() -> (r: Self)
        ensures
            r.estimated_total_bytes == 0,
    {
        FrameMemorySnapshot { estimated_total_bytes: 0 }
    }
}

} // verus!
