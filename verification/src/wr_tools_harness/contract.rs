use vstd::prelude::*;

use crate::string_map::StringMap;
use crate::text::{
    decimal, is_blank, push_decimal, push_str, str_eq, str_is_blank, string_of, string_views,
};
use crate::wr_telemetry::{RunMetadata, SeedInfo};

verus! {

/// The schema version of every harness document.
pub const HARNESS_SCHEMA_VERSION: &'static str = "wr_harness/v1";

/// The comparators a scenario assertion may use, in order.
pub open spec fn supported_comparators() -> Seq<Seq<char>> {
    seq!["eq"@, "ne"@, "gt"@, "gte"@, "lt"@, "lte"@]
}

/// The comparators a scenario assertion may use.
pub fn supported_assertion_comparators() -> (r: Vec<&'static str>)
    ensures
        r@.map_values(|s: &'static str| s@) == supported_comparators(),
{
    let r = vec!["eq", "ne", "gt", "gte", "lt", "lte"];
    assert(r@.map_values(|s: &'static str| s@) =~= supported_comparators());
    r
}

/// Why a harness document was refused or could not be read or written.
#[derive(Debug, Clone, PartialEq, Eq)]
pub enum HarnessError {
    Io(String),
    Json(String),
    Ron(String),
    InvalidPath { path: String },
    InvalidScenario { reason: String },
}

/// The text that `Display` gives for a harness error.
pub open spec fn harness_error_text(e: HarnessError) -> Seq<char> {
    match e {
        HarnessError::Io(error) => "i/o error: "@ + error@,
        HarnessError::Json(error) => "json serialization error: "@ + error@,
        HarnessError::Ron(error) => "ron serialization error: "@ + error@,
        HarnessError::InvalidPath { path } => "invalid artifact path: "@ + path@,
        HarnessError::InvalidScenario { reason } => "invalid scenario: "@ + reason@,
    }
}

impl HarnessError {
    /// An error for an artifact path that cannot be used.
    pub fn invalid_path(path: String) -> (r: Self)
        ensures
            r == (HarnessError::InvalidPath { path }),
    {
        HarnessError::InvalidPath { path }
    }

    /// An error for a scenario that was refused.
    pub fn invalid_scenario(reason: String) -> (r: Self)
        ensures
            r == (HarnessError::InvalidScenario { reason }),
    {
        HarnessError::InvalidScenario { reason }
    }

    /// The error's message.
    pub fn to_string(&self) -> (r: String)
        ensures
            r@ == harness_error_text(*self),
    {
        let (prefix, rest) = match self {
            HarnessError::Io(error) => ("i/o error: ", error),
            HarnessError::Json(error) => ("json serialization error: ", error),
            HarnessError::Ron(error) => ("ron serialization error: ", error),
            HarnessError::InvalidPath { path } => ("invalid artifact path: ", path),
            HarnessError::InvalidScenario { reason } => ("invalid scenario: ", reason),
        };
        let mut r = string_of(prefix);
        push_str(&mut r, rest.as_str());
        r
    }
}

/// What kind of failure a harness run reports.
#[derive(Debug, Clone, Copy, PartialEq, Eq, Structural)]
pub enum FailureKind {
    BuildFailed,
    TestFailed,
    ScenarioFailed,
    PerfRegressed,
    VisualRegressed,
    RuntimeCrash,
}

/// Whether a harness run passed.
#[derive(Debug, Clone, Copy, PartialEq, Eq, Structural)]
pub enum HarnessStatus {
    Passed,
    Failed,
}

/// The outcome of a harness run.
#[derive(Debug, Clone, PartialEq, Eq)]
pub struct ResultEnvelope {
    pub status: HarnessStatus,
    pub summary: String,
    pub failure_kind: Option<FailureKind>,
    pub details: Option<String>,
}

/// A file a harness run produced.
#[derive(Debug, Clone, PartialEq, Eq)]
pub struct ArtifactDescriptor {
    pub role: String,
    pub path: String,
    pub media_type: String,
}

/// An input that a scenario presses or releases at a frame.
#[derive(Debug, Clone, PartialEq, Eq)]
pub struct ScriptedInput {
    pub frame: u32,
    pub action: String,
    pub state: String,
}

/// An actor that a scenario spawns.
#[derive(Debug, Clone, PartialEq, Eq)]
pub struct ScenarioActorSpawn {
    pub actor_id: String,
    pub actor_kind: String,
    pub seed_stream: Option<String>,
}

/// The parts of a scenario assertion that validation reads: the frame, the metric and the
/// comparator (the expected value and tolerance are not read).
#[derive(Debug, Clone, PartialEq, Eq)]
pub struct ScenarioAssertionCheck {
    pub frame: Option<u32>,
    pub metric: String,
    pub comparator: String,
}

/// A check a scenario makes on a metric, at a frame or after the last step. The expected value
/// and the tolerance are single-precision numbers held as their bit patterns (`f32::to_bits`).
#[derive(Debug, Clone, PartialEq)]
pub struct ScenarioAssertion {
    pub frame: Option<u32>,
    pub metric: String,
    pub comparator: String,
    pub expected: u32,
    pub tolerance: Option<u32>,
}

/// A scenario to run headless: its rate, steps, seed, actors, scripted inputs and assertions.
#[derive(Debug, Clone, PartialEq)]
pub struct ScenarioRequest {
    pub schema_version: String,
    pub scenario_path: String,
    pub simulation_rate_hz: u32,
    pub fixed_steps: u32,
    pub seed: SeedInfo,
    pub spawned_actors: Vec<ScenarioActorSpawn>,
    pub scripted_inputs: Vec<ScriptedInput>,
    pub assertions: Vec<ScenarioAssertion>,
}

/// The outcome of one assertion. The expected, actual and tolerance values are single-precision
/// numbers held as their bit patterns.
#[derive(Debug, Clone, PartialEq)]
pub struct ScenarioAssertionResult {
    pub metric: String,
    pub comparator: String,
    pub frame: u32,
    pub expected: u32,
    pub actual: Option<u32>,
    pub tolerance: Option<u32>,
    pub passed: bool,
    pub details: Option<String>,
}

/// The terminal report of a scenario run.
#[derive(Debug, Clone, PartialEq)]
pub struct ScenarioExecutionReport {
    pub schema_version: String,
    pub metadata: RunMetadata,
    pub seed: crate::wr_game::ReportSeedInfo,
    pub scenario_path: String,
    pub result: ResultEnvelope,
    pub metrics: ScenarioExecutionMetrics,
    pub determinism_hash: String,
    pub assertions: Vec<ScenarioAssertionResult>,
    pub artifacts: Vec<ArtifactDescriptor>,
    pub notes: Option<Vec<String>>,
}

/// The first actor whose id an earlier actor already has.
pub open spec fn first_duplicate_id(ids: Seq<Seq<char>>) -> Option<int>
    decreases ids.len(),
{
    if ids.len() == 0 {
        None
    } else {
        match first_duplicate_id(ids.drop_last()) {
            Some(j) => Some(j),
            None => if ids.drop_last().contains(ids.last()) {
                Some(ids.len() - 1)
            } else {
                None
            },
        }
    }
}

/// The first scripted input at or past the last frame.
pub open spec fn first_late_input(frames: Seq<u32>, fixed_steps: u32) -> Option<int>
    decreases frames.len(),
{
    if frames.len() == 0 {
        None
    } else {
        match first_late_input(frames.drop_last(), fixed_steps) {
            Some(j) => Some(j),
            None => if frames.last() >= fixed_steps {
                Some(frames.len() - 1)
            } else {
                None
            },
        }
    }
}

/// An assertion is refused when its comparator is unsupported or its frame is at or past
/// the last frame.
pub open spec fn assertion_refused(a: (Option<u32>, Seq<char>), fixed_steps: u32) -> bool {
    !supported_comparators().contains(a.1) || (a.0 matches Some(f) && f >= fixed_steps)
}

/// The first refused assertion.
pub open spec fn first_refused_assertion(
    assertions: Seq<(Option<u32>, Seq<char>)>,
    fixed_steps: u32,
) -> Option<int>
    decreases assertions.len(),
{
    if assertions.len() == 0 {
        None
    } else {
        match first_refused_assertion(assertions.drop_last(), fixed_steps) {
            Some(j) => Some(j),
            None => if assertion_refused(assertions.last(), fixed_steps) {
                Some(assertions.len() - 1)
            } else {
                None
            },
        }
    }
}

/// The list of supported comparators as the error text gives it.
pub open spec fn comparator_list_text() -> Seq<char> {
    "eq, ne, gt, gte, lt, lte"@
}

/// Why a scenario is refused, if it is, checking in order: schema version, rate, step count,
/// duplicate actor ids, scripted input frames, then each assertion's comparator and frame.
pub open spec fn scenario_refusal(
    schema_version: Seq<char>,
    simulation_rate_hz: u32,
    fixed_steps: u32,
    actor_ids: Seq<Seq<char>>,
    input_frames: Seq<u32>,
    assertions: Seq<(Option<u32>, Seq<char>)>,
) -> Option<Seq<char>> {
    if schema_version != HARNESS_SCHEMA_VERSION@ {
        Some("expected schema version `"@ + HARNESS_SCHEMA_VERSION@ + "`, found `"@ + schema_version
            + "`"@)
    } else if simulation_rate_hz == 0 {
        Some("simulation_rate_hz must be greater than zero"@)
    } else if fixed_steps == 0 {
        Some("fixed_steps must be greater than zero"@)
    } else if let Some(j) = first_duplicate_id(actor_ids) {
        Some("duplicate actor_id `"@ + actor_ids[j] + "`"@)
    } else if let Some(j) = first_late_input(input_frames, fixed_steps) {
        Some("scripted input frame "@ + decimal(input_frames[j] as nat) + " must be below fixed_steps "@
            + decimal(fixed_steps as nat))
    } else if let Some(j) = first_refused_assertion(assertions, fixed_steps) {
        if !supported_comparators().contains(assertions[j].1) {
            Some("unsupported assertion comparator `"@ + assertions[j].1 + "`; expected one of "@
                + comparator_list_text())
        } else {
            Some("assertion frame "@ + decimal(assertions[j].0.unwrap() as nat)
                + " must be below fixed_steps "@ + decimal(fixed_steps as nat))
        }
    } else {
        None
    }
}

/// The ids of the actors.
pub open spec fn actor_ids(actors: Seq<ScenarioActorSpawn>) -> Seq<Seq<char>> {
    actors.map_values(|a: ScenarioActorSpawn| a.actor_id@)
}

/// The frames of the scripted inputs.
pub open spec fn input_frames(inputs: Seq<ScriptedInput>) -> Seq<u32> {
    inputs.map_values(|i: ScriptedInput| i.frame)
}

/// The frames and comparators of the assertions.
pub open spec fn assertion_checks(assertions: Seq<ScenarioAssertionCheck>) -> Seq<(Option<u32>, Seq<char>)> {
    assertions.map_values(|a: ScenarioAssertionCheck| (a.frame, a.comparator@))
}

fn is_supported_comparator(c: &str) -> (r: bool)
    ensures
        r == supported_comparators().contains(c@),
{
    let all = supported_assertion_comparators();
    let mut i: usize = 0;
    while i < all.len()
        invariant
            i <= all@.len(),
            all@.map_values(|s: &'static str| s@) == supported_comparators(),
            forall|k: int| 0 <= k < i ==> supported_comparators()[k] != c@,
        decreases all@.len() - i,
    {
        assert(all@.map_values(|s: &'static str| s@)[i as int] == all@[i as int]@);
        if str_eq(all[i], c) {
            return true;
        }
        i = i + 1;
    }
    false
}

/// Checks a scenario, as `scenario_refusal` describes; the error is an invalid scenario with
/// that reason.
#[verifier::loop_isolation(false)]
pub fn validate_scenario_request(
    schema_version: &str,
    simulation_rate_hz: u32,
    fixed_steps: u32,
    spawned_actors: &Vec<ScenarioActorSpawn>,
    scripted_inputs: &Vec<ScriptedInput>,
    assertions: &Vec<ScenarioAssertionCheck>,
) -> (r: Result<(), HarnessError>)
    ensures
        match scenario_refusal(
            schema_version@,
            simulation_rate_hz,
            fixed_steps,
            actor_ids(spawned_actors@),
            input_frames(scripted_inputs@),
            assertion_checks(assertions@),
        ) {
            Some(reason) => r matches Err(HarnessError::InvalidScenario { reason: why }) && why@
                == reason,
            None => r is Ok,
        },
{
    if !str_eq(schema_version, HARNESS_SCHEMA_VERSION) {
        let mut reason = string_of("expected schema version `");
        push_str(&mut reason, HARNESS_SCHEMA_VERSION);
        push_str(&mut reason, "`, found `");
        push_str(&mut reason, schema_version);
        push_str(&mut reason, "`");
        return Err(HarnessError::InvalidScenario { reason });
    }
    if simulation_rate_hz == 0 {
        return Err(
            HarnessError::InvalidScenario {
                reason: string_of("simulation_rate_hz must be greater than zero"),
            },
        );
    }
    if fixed_steps == 0 {
        return Err(
            HarnessError::InvalidScenario {
                reason: string_of("fixed_steps must be greater than zero"),
            },
        );
    }
    let ghost ids = actor_ids(spawned_actors@);
    let mut j: usize = 0;
    while j < spawned_actors.len()
        invariant
            j <= spawned_actors@.len(),
            ids == actor_ids(spawned_actors@),
            first_duplicate_id(ids.subrange(0, j as int)).is_none(),
        decreases spawned_actors@.len() - j,
    {
        let id = &spawned_actors[j].actor_id;
        let mut k: usize = 0;
        while k < j
            invariant
                k <= j < spawned_actors@.len(),
                ids == actor_ids(spawned_actors@),
                id@ == ids[j as int],
                forall|m: int| 0 <= m < k ==> ids[m] != id@,
            decreases j - k,
        {
            if str_eq(spawned_actors[k].actor_id.as_str(), id.as_str()) {
                proof {
                    let s = ids.subrange(0, j + 1);
                    assert(s.drop_last() =~= ids.subrange(0, j as int));
                    assert(s.drop_last()[k as int] == s.last());
                    lemma_first_duplicate_prefix(ids, j as int + 1);
                }
                let mut reason = string_of("duplicate actor_id `");
                push_str(&mut reason, id.as_str());
                push_str(&mut reason, "`");
                return Err(HarnessError::InvalidScenario { reason });
            }
            k = k + 1;
        }
        proof {
            let s = ids.subrange(0, j + 1);
            assert(s.drop_last() =~= ids.subrange(0, j as int));
            assert(!s.drop_last().contains(s.last())) by {
                if s.drop_last().contains(s.last()) {
                    let m = choose|m: int| 0 <= m < s.drop_last().len() && s.drop_last()[m] == s.last();
                    assert(ids[m] == id@);
                }
            }
        }
        j = j + 1;
    }
    assert(ids.subrange(0, ids.len() as int) =~= ids);
    let ghost frames = input_frames(scripted_inputs@);
    let mut j: usize = 0;
    while j < scripted_inputs.len()
        invariant
            j <= scripted_inputs@.len(),
            frames == input_frames(scripted_inputs@),
            first_late_input(frames.subrange(0, j as int), fixed_steps).is_none(),
        decreases scripted_inputs@.len() - j,
    {
        let frame = scripted_inputs[j].frame;
        proof {
            let s = frames.subrange(0, j + 1);
            assert(s.drop_last() =~= frames.subrange(0, j as int));
            assert(s.last() == frame);
        }
        if frame >= fixed_steps {
            proof {
                lemma_first_late_prefix(frames, fixed_steps, j as int + 1);
            }
            let mut reason = string_of("scripted input frame ");
            push_decimal(&mut reason, frame as u64);
            push_str(&mut reason, " must be below fixed_steps ");
            push_decimal(&mut reason, fixed_steps as u64);
            return Err(HarnessError::InvalidScenario { reason });
        }
        j = j + 1;
    }
    assert(frames.subrange(0, frames.len() as int) =~= frames);
    let ghost checks = assertion_checks(assertions@);
    let mut j: usize = 0;
    while j < assertions.len()
        invariant
            j <= assertions@.len(),
            checks == assertion_checks(assertions@),
            first_refused_assertion(checks.subrange(0, j as int), fixed_steps).is_none(),
        decreases assertions@.len() - j,
    {
        let a = &assertions[j];
        proof {
            let s = checks.subrange(0, j + 1);
            assert(s.drop_last() =~= checks.subrange(0, j as int));
            assert(s.last() == (a.frame, a.comparator@));
        }
        let supported = is_supported_comparator(a.comparator.as_str());
        let late = match a.frame {
            Some(f) => f >= fixed_steps,
            None => false,
        };
        if !supported || late {
            proof {
                lemma_first_refused_prefix(checks, fixed_steps, j as int + 1);
            }
            if !supported {
                let mut reason = string_of("unsupported assertion comparator `");
                push_str(&mut reason, a.comparator.as_str());
                push_str(&mut reason, "`; expected one of ");
                push_str(&mut reason, "eq, ne, gt, gte, lt, lte");
                return Err(HarnessError::InvalidScenario { reason });
            } else {
                let f = match a.frame {
                    Some(f) => f,
                    None => 0,
                };
                let mut reason = string_of("assertion frame ");
                push_decimal(&mut reason, f as u64);
                push_str(&mut reason, " must be below fixed_steps ");
                push_decimal(&mut reason, fixed_steps as u64);
                return Err(HarnessError::InvalidScenario { reason });
            }
        }
        j = j + 1;
    }
    assert(checks.subrange(0, checks.len() as int) =~= checks);
    Ok(())
}

proof fn lemma_first_duplicate_prefix(s: Seq<Seq<char>>, k: int)
    requires
        0 <= k <= s.len(),
        first_duplicate_id(s.subrange(0, k)).is_some(),
    ensures
        first_duplicate_id(s) == first_duplicate_id(s.subrange(0, k)),
    decreases s.len() - k,
{
    if k < s.len() {
        assert(s.subrange(0, k + 1).drop_last() =~= s.subrange(0, k));
        lemma_first_duplicate_prefix(s, k + 1);
    } else {
        assert(s.subrange(0, k) =~= s);
    }
}

proof fn lemma_first_late_prefix(s: Seq<u32>, n: u32, k: int)
    requires
        0 <= k <= s.len(),
        first_late_input(s.subrange(0, k), n).is_some(),
    ensures
        first_late_input(s, n) == first_late_input(s.subrange(0, k), n),
    decreases s.len() - k,
{
    if k < s.len() {
        assert(s.subrange(0, k + 1).drop_last() =~= s.subrange(0, k));
        lemma_first_late_prefix(s, n, k + 1);
    } else {
        assert(s.subrange(0, k) =~= s);
    }
}

proof fn lemma_first_refused_prefix(s: Seq<(Option<u32>, Seq<char>)>, n: u32, k: int)
    requires
        0 <= k <= s.len(),
        first_refused_assertion(s.subrange(0, k), n).is_some(),
    ensures
        first_refused_assertion(s, n) == first_refused_assertion(s.subrange(0, k), n),
    decreases s.len() - k,
{
    if k < s.len() {
        assert(s.subrange(0, k + 1).drop_last() =~= s.subrange(0, k));
        lemma_first_refused_prefix(s, n, k + 1);
    } else {
        assert(s.subrange(0, k) =~= s);
    }
}

/// A request to capture frames of a scenario.
#[derive(Debug, Clone, PartialEq, Eq)]
pub struct CaptureRequest {
    pub schema_version: String,
    pub scenario_path: String,
    pub camera_set: String,
    pub frame_count: u32,
    pub seed: SeedInfo,
    pub requested_outputs: Vec<String>,
}

/// One variant of a lookdev sweep: tweak overrides by key.
#[derive(Debug, Clone, PartialEq, Eq)]
pub struct LookdevVariant {
    pub variant_id: String,
    pub overrides: StringMap,
}

/// A request to render a set of lookdev variants.
#[derive(Debug, Clone, PartialEq, Eq)]
pub struct LookdevSweepRequest {
    pub schema_version: String,
    pub tweak_pack_path: String,
    pub camera_set: String,
    pub seed: SeedInfo,
    pub variants: Vec<LookdevVariant>,
}

/// What a scenario run counted.
#[derive(Debug, Clone, Copy, PartialEq, Eq, Structural)]
pub struct ScenarioExecutionMetrics {
    pub frames_requested: u32,
    pub frames_simulated: u32,
    pub simulation_rate_hz: u32,
    pub spawned_actor_count: u32,
    pub scripted_input_count: u32,
    pub applied_input_count: u32,
}

/// The terminal report of a command that is not a scenario run.
#[derive(Debug, Clone, PartialEq, Eq)]
pub struct CommandExecutionReport {
    pub schema_version: String,
    pub metadata: RunMetadata,
    pub command_name: String,
    pub result: ResultEnvelope,
    pub artifacts: Vec<ArtifactDescriptor>,
    pub notes: Option<Vec<String>>,
}

/// Where a daemon job is.
#[derive(Debug, Clone, Copy, PartialEq, Eq, Structural)]
pub enum DaemonJobState {
    Queued,
    Running,
    Succeeded,
    Failed,
}

/// A command the agent daemon runs.
#[derive(Debug, Clone, PartialEq, Eq)]
pub enum DaemonCommandRequest {
    Verify { run_id: Option<String> },
    RunScenario { scenario_path: String, run_id: Option<String> },
    CaptureFrames { scenario_path: String, run_id: Option<String> },
    LookdevSweep {
        tweak_pack_path: String,
        camera_set: String,
        seed_hex: String,
        run_id: Option<String>,
    },
    PerfCheck { scenario_path: String, run_id: Option<String> },
}

/// The run id of a request, as characters.
pub open spec fn request_run_id(r: DaemonCommandRequest) -> Option<Seq<char>> {
    let id = match r {
        DaemonCommandRequest::Verify { run_id } => run_id,
        DaemonCommandRequest::RunScenario { run_id, .. } => run_id,
        DaemonCommandRequest::CaptureFrames { run_id, .. } => run_id,
        DaemonCommandRequest::LookdevSweep { run_id, .. } => run_id,
        DaemonCommandRequest::PerfCheck { run_id, .. } => run_id,
    };
    match id {
        Some(s) => Some(s@),
        None => None,
    }
}

/// The request with its run id replaced by `id`, all other fields kept.
pub open spec fn request_with_run_id(r: DaemonCommandRequest, id: Option<String>) -> DaemonCommandRequest {
    match r {
        DaemonCommandRequest::Verify { .. } => DaemonCommandRequest::Verify { run_id: id },
        DaemonCommandRequest::RunScenario { scenario_path, .. } => DaemonCommandRequest::RunScenario {
            scenario_path,
            run_id: id,
        },
        DaemonCommandRequest::CaptureFrames { scenario_path, .. } => DaemonCommandRequest::CaptureFrames {
            scenario_path,
            run_id: id,
        },
        DaemonCommandRequest::LookdevSweep { tweak_pack_path, camera_set, seed_hex, .. } =>
            DaemonCommandRequest::LookdevSweep { tweak_pack_path, camera_set, seed_hex, run_id: id },
        DaemonCommandRequest::PerfCheck { scenario_path, .. } => DaemonCommandRequest::PerfCheck {
            scenario_path,
            run_id: id,
        },
    }
}

/// The command name under which a request's artifacts are filed.
pub open spec fn artifact_command_str(r: DaemonCommandRequest) -> Seq<char> {
    match r {
        DaemonCommandRequest::Verify { .. } => "verify"@,
        DaemonCommandRequest::RunScenario { .. } => "run-scenario"@,
        DaemonCommandRequest::CaptureFrames { .. } => "capture"@,
        DaemonCommandRequest::LookdevSweep { .. } => "lookdev"@,
        DaemonCommandRequest::PerfCheck { .. } => "perf"@,
    }
}

/// The label of a request's command.
pub open spec fn command_label_str(r: DaemonCommandRequest) -> Seq<char> {
    match r {
        DaemonCommandRequest::Verify { .. } => "verify"@,
        DaemonCommandRequest::RunScenario { .. } => "run_scenario"@,
        DaemonCommandRequest::CaptureFrames { .. } => "capture_frames"@,
        DaemonCommandRequest::LookdevSweep { .. } => "lookdev_sweep"@,
        DaemonCommandRequest::PerfCheck { .. } => "perf_check"@,
    }
}

/// `--run-id <id>` when there is a run id.
pub open spec fn run_id_args(r: DaemonCommandRequest) -> Seq<Seq<char>> {
    match request_run_id(r) {
        Some(id) => seq!["--run-id"@, id],
        None => seq![],
    }
}

/// The `cargo xtask` arguments that run a request.
pub open spec fn xtask_args_of(r: DaemonCommandRequest) -> Seq<Seq<char>> {
    match r {
        DaemonCommandRequest::Verify { .. } => seq!["verify"@] + run_id_args(r),
        DaemonCommandRequest::RunScenario { scenario_path, .. } => seq![
            "run-scenario"@,
            "--scenario"@,
            scenario_path@,
        ] + run_id_args(r),
        DaemonCommandRequest::CaptureFrames { scenario_path, .. } => seq![
            "capture"@,
            "--scenario"@,
            scenario_path@,
        ] + run_id_args(r),
        DaemonCommandRequest::LookdevSweep { tweak_pack_path, camera_set, seed_hex, .. } => seq![
            "lookdev"@,
            "--pack"@,
            tweak_pack_path@,
            "--camera-set"@,
            camera_set@,
            "--seed"@,
            seed_hex@,
        ] + run_id_args(r),
        DaemonCommandRequest::PerfCheck { scenario_path, .. } => seq![
            "perf"@,
            "--scenario"@,
            scenario_path@,
        ] + run_id_args(r),
    }
}

/// Why a daemon request is refused, if it is: the first blank path or name.
pub open spec fn request_refusal(r: DaemonCommandRequest) -> Option<Seq<char>> {
    match r {
        DaemonCommandRequest::Verify { .. } => None,
        DaemonCommandRequest::RunScenario { scenario_path, .. } => if is_blank(scenario_path@) {
            Some("scenario_path must not be empty"@)
        } else {
            None
        },
        DaemonCommandRequest::CaptureFrames { scenario_path, .. } => if is_blank(scenario_path@) {
            Some("scenario_path must not be empty"@)
        } else {
            None
        },
        DaemonCommandRequest::PerfCheck { scenario_path, .. } => if is_blank(scenario_path@) {
            Some("scenario_path must not be empty"@)
        } else {
            None
        },
        DaemonCommandRequest::LookdevSweep { tweak_pack_path, camera_set, seed_hex, .. } =>
            if is_blank(tweak_pack_path@) {
            Some("tweak_pack_path must not be empty"@)
        } else if is_blank(camera_set@) {
            Some("camera_set must not be empty"@)
        } else if is_blank(seed_hex@) {
            Some("seed_hex must not be empty"@)
        } else {
            None
        },
    }
}


fn push_run_id_args(args: &mut Vec<String>, run_id: &Option<String>)
    ensures
        string_views(final(args)@) == string_views(old(args)@) + match run_id {
            Some(id) => seq!["--run-id"@, id@],
            None => seq![],
        },
{
    match run_id {
        Some(id) => {
            args.push(string_of("--run-id"));
            args.push(id.clone());
        },
        None => {},
    }
    assert(string_views(final(args)@) =~= string_views(old(args)@) + match run_id {
        Some(id) => seq!["--run-id"@, id@],
        None => seq![],
    });
}

impl DaemonCommandRequest {
    /// The run id, if the request has one.
    pub fn run_id(&self) -> (r: Option<&str>)
        ensures
            match request_run_id(*self) {
                Some(id) => r matches Some(s) && s@ == id,
                None => r.is_none(),
            },
    {
        let id = match self {
            DaemonCommandRequest::Verify { run_id } => run_id,
            DaemonCommandRequest::RunScenario { run_id, .. } => run_id,
            DaemonCommandRequest::CaptureFrames { run_id, .. } => run_id,
            DaemonCommandRequest::LookdevSweep { run_id, .. } => run_id,
            DaemonCommandRequest::PerfCheck { run_id, .. } => run_id,
        };
        match id {
            Some(s) => Some(s.as_str()),
            None => None,
        }
    }

    /// The request with `run_id` as its run id when it has none; unchanged otherwise.
    pub fn with_run_id_if_missing(self, run_id: &str) -> (r: Self)
        ensures
            request_run_id(self).is_some() ==> r == self,
            request_run_id(self).is_none() ==> (exists|s: String|
                s@ == run_id@ && r == request_with_run_id(self, Some(s))),
    {
        let id = string_of(run_id);
        let r = match self {
            DaemonCommandRequest::Verify { run_id: None } => DaemonCommandRequest::Verify {
                run_id: Some(id),
            },
            DaemonCommandRequest::RunScenario { scenario_path, run_id: None } =>
                DaemonCommandRequest::RunScenario { scenario_path, run_id: Some(id) },
            DaemonCommandRequest::CaptureFrames { scenario_path, run_id: None } =>
                DaemonCommandRequest::CaptureFrames { scenario_path, run_id: Some(id) },
            DaemonCommandRequest::LookdevSweep {
                tweak_pack_path,
                camera_set,
                seed_hex,
                run_id: None,
            } => DaemonCommandRequest::LookdevSweep {
                tweak_pack_path,
                camera_set,
                seed_hex,
                run_id: Some(id),
            },
            DaemonCommandRequest::PerfCheck { scenario_path, run_id: None } =>
                DaemonCommandRequest::PerfCheck { scenario_path, run_id: Some(id) },
            other => other,
        };
        r
    }

    /// The command name under which the request's artifacts are filed.
    pub fn artifact_command_name(&self) -> (r: &'static str)
        ensures
            r@ == artifact_command_str(*self),
    {
        match self {
            DaemonCommandRequest::Verify { .. } => "verify",
            DaemonCommandRequest::RunScenario { .. } => "run-scenario",
            DaemonCommandRequest::CaptureFrames { .. } => "capture",
            DaemonCommandRequest::LookdevSweep { .. } => "lookdev",
            DaemonCommandRequest::PerfCheck { .. } => "perf",
        }
    }

    /// The label of the request's command.
    pub fn command_label(&self) -> (r: &'static str)
        ensures
            r@ == command_label_str(*self),
    {
        match self {
            DaemonCommandRequest::Verify { .. } => "verify",
            DaemonCommandRequest::RunScenario { .. } => "run_scenario",
            DaemonCommandRequest::CaptureFrames { .. } => "capture_frames",
            DaemonCommandRequest::LookdevSweep { .. } => "lookdev_sweep",
            DaemonCommandRequest::PerfCheck { .. } => "perf_check",
        }
    }

    /// The `cargo xtask` arguments that run the request.
    pub fn xtask_args(&self) -> (r: Vec<String>)
        ensures
            string_views(r@) == xtask_args_of(*self),
    {
        let mut args: Vec<String> = Vec::new();
        match self {
            DaemonCommandRequest::Verify { run_id } => {
                args.push(string_of("verify"));
                push_run_id_args(&mut args, run_id);
            },
            DaemonCommandRequest::RunScenario { scenario_path, run_id } => {
                args.push(string_of("run-scenario"));
                args.push(string_of("--scenario"));
                args.push(scenario_path.clone());
                push_run_id_args(&mut args, run_id);
            },
            DaemonCommandRequest::CaptureFrames { scenario_path, run_id } => {
                args.push(string_of("capture"));
                args.push(string_of("--scenario"));
                args.push(scenario_path.clone());
                push_run_id_args(&mut args, run_id);
            },
            DaemonCommandRequest::LookdevSweep { tweak_pack_path, camera_set, seed_hex, run_id } => {
                args.push(string_of("lookdev"));
                args.push(string_of("--pack"));
                args.push(tweak_pack_path.clone());
                args.push(string_of("--camera-set"));
                args.push(camera_set.clone());
                args.push(string_of("--seed"));
                args.push(seed_hex.clone());
                push_run_id_args(&mut args, run_id);
            },
            DaemonCommandRequest::PerfCheck { scenario_path, run_id } => {
                args.push(string_of("perf"));
                args.push(string_of("--scenario"));
                args.push(scenario_path.clone());
                push_run_id_args(&mut args, run_id);
            },
        }
        assert(string_views(args@) =~= xtask_args_of(*self));
        args
    }

    /// Refuses a request with a blank scenario path, or, for a lookdev sweep, a blank pack
    /// path, camera set or seed (checked in that order).
    pub fn validate(&self) -> (r: Result<(), HarnessError>)
        ensures
            match request_refusal(*self) {
                Some(reason) => r matches Err(HarnessError::InvalidScenario { reason: why })
                    && why@ == reason,
                None => r is Ok,
            },
    {
        match self {
            DaemonCommandRequest::Verify { .. } => Ok(()),
            DaemonCommandRequest::RunScenario { scenario_path, .. }
            | DaemonCommandRequest::CaptureFrames { scenario_path, .. }
            | DaemonCommandRequest::PerfCheck { scenario_path, .. } => {
                if str_is_blank(scenario_path.as_str()) {
                    Err(
                        HarnessError::InvalidScenario {
                            reason: string_of("scenario_path must not be empty"),
                        },
                    )
                } else {
                    Ok(())
                }
            },
            DaemonCommandRequest::LookdevSweep { tweak_pack_path, camera_set, seed_hex, .. } => {
                if str_is_blank(tweak_pack_path.as_str()) {
                    Err(
                        HarnessError::InvalidScenario {
                            reason: string_of("tweak_pack_path must not be empty"),
                        },
                    )
                } else if str_is_blank(camera_set.as_str()) {
                    Err(
                        HarnessError::InvalidScenario {
                            reason: string_of("camera_set must not be empty"),
                        },
                    )
                } else if str_is_blank(seed_hex.as_str()) {
                    Err(
                        HarnessError::InvalidScenario {
                            reason: string_of("seed_hex must not be empty"),
                        },
                    )
                } else {
                    Ok(())
                }
            },
        }
    }
}

/// A request to the agent daemon to launch a command.
#[derive(Debug, Clone, PartialEq, Eq)]
pub struct DaemonLaunchRequest {
    pub command: DaemonCommandRequest,
}

impl DaemonLaunchRequest {
    /// Refuses the launch when its command is refused.
    pub fn validate(&self) -> (r: Result<(), HarnessError>)
        ensures
            match request_refusal(self.command) {
                Some(reason) => r matches Err(HarnessError::InvalidScenario { reason: why })
                    && why@ == reason,
                None => r is Ok,
            },
    {
        self.command.validate()
    }
}

/// What the daemon knows of a job.
#[derive(Debug, Clone, PartialEq, Eq)]
pub struct DaemonJobSnapshot {
    pub schema_version: String,
    pub job_id: String,
    pub command: DaemonCommandRequest,
    pub state: DaemonJobState,
    pub artifacts: Vec<ArtifactDescriptor>,
    pub exit_code: Option<i32>,
    pub started_at_unix_ms: Option<u64>,
    pub completed_at_unix_ms: Option<u64>,
    pub error: Option<String>,
}

/// The counts of one test suite.
#[derive(Debug, Clone, PartialEq, Eq)]
pub struct TestSuiteResult {
    pub name: String,
    pub passed: u32,
    pub failed: u32,
    pub ignored: u32,
    pub duration_ms: u64,
    pub stdout_artifact: Option<String>,
    pub stderr_artifact: Option<String>,
}

/// The terminal report of a test run.
#[derive(Debug, Clone, PartialEq, Eq)]
pub struct TestResultBundle {
    pub schema_version: String,
    pub metadata: RunMetadata,
    pub seed: SeedInfo,
    pub result: ResultEnvelope,
    pub suites: Vec<TestSuiteResult>,
    pub artifacts: Vec<ArtifactDescriptor>,
    pub notes: Option<Vec<String>>,
}

/// The reference bundle of the harness contract: one passing no-op suite and the terminal
/// report as its only artifact.
pub fn canonical_noop_test_result_bundle(
    metadata: RunMetadata,
    seed: SeedInfo,
    terminal_report_path: &str,
) -> (r: TestResultBundle)
    ensures
        r.schema_version@ == HARNESS_SCHEMA_VERSION@,
        r.metadata == metadata,
        r.seed == seed,
        r.result.status == HarnessStatus::Passed,
        r.result.summary@ == "No-op harness bundle emitted successfully."@,
        r.result.failure_kind.is_none(),
        r.result.details matches Some(d) && d@
            == "Bootstrap contract bundle only; scenario execution and capture work land in later roadmap tasks."@,
        r.suites@.len() == 1,
        r.suites@[0].name@ == "noop_harness_contract"@,
        r.suites@[0].passed == 1 && r.suites@[0].failed == 0 && r.suites@[0].ignored == 0
            && r.suites@[0].duration_ms == 0,
        r.suites@[0].stdout_artifact.is_none() && r.suites@[0].stderr_artifact.is_none(),
        r.artifacts@.len() == 1,
        r.artifacts@[0].role@ == "terminal_report"@,
        r.artifacts@[0].path@ == terminal_report_path@,
        r.artifacts@[0].media_type@ == "application/json"@,
        r.notes matches Some(n) && string_views(n@) == seq![
            "Artifact paths are stable under reports/harness/<command>/<run_id>/."@,
            "This bundle is the bootstrap reference for the agent-facing harness contract."@,
        ],
{
    let suites = vec![
        TestSuiteResult {
            name: string_of("noop_harness_contract"),
            passed: 1,
            failed: 0,
            ignored: 0,
            duration_ms: 0,
            stdout_artifact: None,
            stderr_artifact: None,
        },
    ];
    let artifacts = vec![
        ArtifactDescriptor {
            role: string_of("terminal_report"),
            path: string_of(terminal_report_path),
            media_type: string_of("application/json"),
        },
    ];
    let notes = vec![
        string_of("Artifact paths are stable under reports/harness/<command>/<run_id>/."),
        string_of("This bundle is the bootstrap reference for the agent-facing harness contract."),
    ];
    assert(string_views(notes@) =~= seq![
        "Artifact paths are stable under reports/harness/<command>/<run_id>/."@,
        "This bundle is the bootstrap reference for the agent-facing harness contract."@,
    ]);
    TestResultBundle {
        schema_version: string_of(HARNESS_SCHEMA_VERSION),
        metadata,
        seed,
        result: ResultEnvelope {
            status: HarnessStatus::Passed,
            summary: string_of("No-op harness bundle emitted successfully."),
            failure_kind: None,
            details: Some(
                string_of(
                    "Bootstrap contract bundle only; scenario execution and capture work land in later roadmap tasks.",
                ),
            ),
        },
        suites,
        artifacts,
        notes: Some(notes),
    }
}

/// The frames and comparators of a scenario's assertions.
pub open spec fn scenario_assertion_checks(assertions: Seq<ScenarioAssertion>) -> Seq<(Option<u32>, Seq<char>)> {
    assertions.map_values(|a: ScenarioAssertion| (a.frame, a.comparator@))
}

impl ScenarioRequest {
    /// Checks the scenario, as `scenario_refusal` describes: the schema version, the rate and
    /// steps, distinct actor ids, input and assertion frames below the steps, and supported
    /// comparators. The error is an invalid scenario with the first reason found.
    pub fn validate(&self) -> (r: Result<(), HarnessError>)
        ensures
            match scenario_refusal(
                self.schema_version@,
                self.simulation_rate_hz,
                self.fixed_steps,
                actor_ids(self.spawned_actors@),
                input_frames(self.scripted_inputs@),
                scenario_assertion_checks(self.assertions@),
            ) {
                Some(reason) => r matches Err(HarnessError::InvalidScenario { reason: why })
                    && why@ == reason,
                None => r is Ok,
            },
    {
        let mut checks: Vec<ScenarioAssertionCheck> = Vec::new();
        let mut i: usize = 0;
        while i < self.assertions.len()
            invariant
                i <= self.assertions@.len(),
                assertion_checks(checks@) == scenario_assertion_checks(self.assertions@.take(i as int)),
            decreases self.assertions@.len() - i,
        {
            let a = &self.assertions[i];
            let ghost before = checks@;
            checks.push(
                ScenarioAssertionCheck {
                    frame: a.frame,
                    metric: a.metric.clone(),
                    comparator: a.comparator.clone(),
                },
            );
            assert(assertion_checks(checks@) =~= assertion_checks(before).push((a.frame, a.comparator@)));
            assert(self.assertions@.take(i + 1) =~= self.assertions@.take(i as int).push(*a));
            assert(scenario_assertion_checks(self.assertions@.take(i + 1)) =~= scenario_assertion_checks(
                self.assertions@.take(i as int),
            ).push((a.frame, a.comparator@)));
            i = i + 1;
        }
        assert(self.assertions@.take(self.assertions@.len() as int) =~= self.assertions@);
        validate_scenario_request(
            self.schema_version.as_str(),
            self.simulation_rate_hz,
            self.fixed_steps,
            &self.spawned_actors,
            &self.scripted_inputs,
            &checks,
        )
    }
}

} // verus!
