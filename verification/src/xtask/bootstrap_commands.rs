use vstd::prelude::*;

use crate::text::{decimal, push_decimal, push_str, str_eq, string_of, string_views};
use crate::wr_headless::opt_view;
use crate::wr_telemetry::RunMetadata;
use crate::wr_render_wgpu::OffscreenCaptureOutcome;
use crate::wr_telemetry::verification::{artifact_component, artifact_slug};
use crate::wr_tools_harness::contract::{
    ArtifactDescriptor, CommandExecutionReport, FailureKind, HARNESS_SCHEMA_VERSION,
    HarnessStatus, ResultEnvelope,
};

verus! {

/// Where a bootstrap command wrote its terminal report, and whether it succeeded.
#[derive(Debug, Clone, PartialEq, Eq)]
pub struct BootstrapCommandOutcome {
    pub terminal_report_path: String,
    pub succeeded: bool,
}

/// The arguments of a command that runs one scenario.
#[derive(Debug, Clone, PartialEq, Eq)]
pub struct ScenarioCommandOptions {
    pub scenario_path: String,
    pub run_id: Option<String>,
}

/// The arguments of a lookdev sweep.
#[derive(Debug, Clone, PartialEq, Eq)]
pub struct LookdevCommandOptions {
    pub tweak_pack_path: String,
    pub camera_set: String,
    pub seed_hex: String,
    pub run_id: Option<String>,
}

/// The outcome of reading a scenario command's arguments from index `i` on, given the
/// scenario path and run id read so far: `--scenario` and `--run-id` take the next argument,
/// the first bare argument is the scenario path while none is set, anything else is refused;
/// a scenario path is required.
pub open spec fn scenario_options_from(
    command: Seq<char>,
    args: Seq<Seq<char>>,
    i: nat,
    scenario: Option<Seq<char>>,
    run_id: Option<Seq<char>>,
) -> Result<(Seq<char>, Option<Seq<char>>), Seq<char>>
    decreases args.len() - i,
{
    if i >= args.len() {
        match scenario {
            Some(s) => Ok((s, run_id)),
            None => Err("missing scenario path; pass --scenario <path> to "@ + command),
        }
    } else {
        let a = args[i as int];
        if a == "--scenario"@ {
            if i + 1 >= args.len() {
                Err("expected a value after --scenario for "@ + command)
            } else {
                scenario_options_from(command, args, i + 2, Some(args[i + 1 as int]), run_id)
            }
        } else if a == "--run-id"@ {
            if i + 1 >= args.len() {
                Err("expected a value after --run-id for "@ + command)
            } else {
                scenario_options_from(command, args, i + 2, scenario, Some(args[i + 1 as int]))
            }
        } else if scenario is None {
            scenario_options_from(command, args, i + 1, Some(a), run_id)
        } else {
            Err("unsupported argument `"@ + a + "` for "@ + command
                + "; supported flags: --scenario, --run-id"@)
        }
    }
}

impl ScenarioCommandOptions {
    /// Reads a scenario command's arguments as `scenario_options_from` describes.
    pub fn parse(command_name: &str, args: Vec<String>) -> (r: Result<Self, String>)
        ensures
            match scenario_options_from(command_name@, string_views(args@), 0, None, None) {
                Ok(v) => r matches Ok(o) && v == (o.scenario_path@, opt_view(o.run_id)),
                Err(e) => r matches Err(x) && x@ == e,
            },
    {
        let ghost views = string_views(args@);
        let mut scenario: Option<String> = None;
        let mut run_id: Option<String> = None;
        let n = args.len();
        let mut i: usize = 0;
        while i < n
            invariant
                i <= n == args@.len(),
                views == string_views(args@),
                scenario_options_from(command_name@, views, 0, None, None)
                    == scenario_options_from(
                    command_name@,
                    views,
                    i as nat,
                    opt_view(scenario),
                    opt_view(run_id),
                ),
            decreases n - i,
        {
            let arg = args[i].as_str();
            assert(arg@ == views[i as int]);
            if str_eq(arg, "--scenario") {
                if n - i <= 1 {
                    let mut m = string_of("expected a value after --scenario for ");
                    push_str(&mut m, command_name);
                    return Err(m);
                }
                assert(args@[i + 1]@ == views[i + 1]);
                scenario = Some(args[i + 1].clone());
                i = i + 2;
            } else if str_eq(arg, "--run-id") {
                if n - i <= 1 {
                    let mut m = string_of("expected a value after --run-id for ");
                    push_str(&mut m, command_name);
                    return Err(m);
                }
                assert(args@[i + 1]@ == views[i + 1]);
                run_id = Some(args[i + 1].clone());
                i = i + 2;
            } else if scenario.is_none() {
                scenario = Some(string_of(arg));
                i = i + 1;
            } else {
                let mut m = string_of("unsupported argument `");
                push_str(&mut m, arg);
                push_str(&mut m, "` for ");
                push_str(&mut m, command_name);
                push_str(&mut m, "; supported flags: --scenario, --run-id");
                return Err(m);
            }
        }
        match scenario {
            Some(scenario_path) => Ok(ScenarioCommandOptions { scenario_path, run_id }),
            None => {
                let mut m = string_of("missing scenario path; pass --scenario <path> to ");
                push_str(&mut m, command_name);
                Err(m)
            },
        }
    }
}

/// What a lookdev sweep has read so far: pack path, camera set, seed and run id.
pub type LookdevParseState = (
    Option<Seq<char>>,
    Option<Seq<char>>,
    Option<Seq<char>>,
    Option<Seq<char>>,
);

/// The outcome of reading a lookdev sweep's arguments from index `i` on: `--pack`,
/// `--camera-set`, `--seed` and `--run-id` take the next argument, anything else is refused;
/// the pack, camera set and seed are required, in that order.
pub open spec fn lookdev_options_from(args: Seq<Seq<char>>, i: nat, st: LookdevParseState) -> Result<
    (Seq<char>, Seq<char>, Seq<char>, Option<Seq<char>>),
    Seq<char>,
>
    decreases args.len() - i,
{
    if i >= args.len() {
        match st.0 {
            None => Err("missing tweak pack path; pass --pack <path>"@),
            Some(pack) => match st.1 {
                None => Err("missing camera set; pass --camera-set <name>"@),
                Some(camera) => match st.2 {
                    None => Err("missing seed; pass --seed <hex>"@),
                    Some(seed) => Ok((pack, camera, seed, st.3)),
                },
            },
        }
    } else {
        let a = args[i as int];
        if a == "--pack"@ || a == "--camera-set"@ || a == "--seed"@ || a == "--run-id"@ {
            if i + 1 >= args.len() {
                Err("expected a value after "@ + a)
            } else {
                let v = Some(args[i + 1 as int]);
                let next = if a == "--pack"@ {
                    (v, st.1, st.2, st.3)
                } else if a == "--camera-set"@ {
                    (st.0, v, st.2, st.3)
                } else if a == "--seed"@ {
                    (st.0, st.1, v, st.3)
                } else {
                    (st.0, st.1, st.2, v)
                };
                lookdev_options_from(args, i + 2, next)
            }
        } else {
            Err("unsupported argument `"@ + a
                + "` for lookdev; supported flags: --pack, --camera-set, --seed, --run-id"@)
        }
    }
}

impl LookdevCommandOptions {
    /// Reads a lookdev sweep's arguments as `lookdev_options_from` describes.
    pub fn parse(args: Vec<String>) -> (r: Result<Self, String>)
        ensures
            match lookdev_options_from(string_views(args@), 0, (None, None, None, None)) {
                Ok(v) => r matches Ok(o) && v == (
                    o.tweak_pack_path@,
                    o.camera_set@,
                    o.seed_hex@,
                    opt_view(o.run_id),
                ),
                Err(e) => r matches Err(x) && x@ == e,
            },
    {
        let ghost views = string_views(args@);
        let mut pack: Option<String> = None;
        let mut camera: Option<String> = None;
        let mut seed: Option<String> = None;
        let mut run_id: Option<String> = None;
        let n = args.len();
        let mut i: usize = 0;
        while i < n
            invariant
                i <= n == args@.len(),
                views == string_views(args@),
                lookdev_options_from(views, 0, (None, None, None, None)) == lookdev_options_from(
                    views,
                    i as nat,
                    (opt_view(pack), opt_view(camera), opt_view(seed), opt_view(run_id)),
                ),
            decreases n - i,
        {
            let arg = args[i].as_str();
            assert(arg@ == views[i as int]);
            let is_pack = str_eq(arg, "--pack");
            let is_camera = str_eq(arg, "--camera-set");
            let is_seed = str_eq(arg, "--seed");
            let is_run_id = str_eq(arg, "--run-id");
            if is_pack || is_camera || is_seed || is_run_id {
                if n - i <= 1 {
                    let mut m = string_of("expected a value after ");
                    push_str(&mut m, arg);
                    return Err(m);
                }
                assert(args@[i + 1]@ == views[i + 1]);
                let value = args[i + 1].clone();
                if is_pack {
                    pack = Some(value);
                } else if is_camera {
                    camera = Some(value);
                } else if is_seed {
                    seed = Some(value);
                } else {
                    run_id = Some(value);
                }
                i = i + 2;
            } else {
                let mut m = string_of("unsupported argument `");
                push_str(&mut m, arg);
                push_str(
                    &mut m,
                    "` for lookdev; supported flags: --pack, --camera-set, --seed, --run-id",
                );
                return Err(m);
            }
        }
        match pack {
            None => Err(string_of("missing tweak pack path; pass --pack <path>")),
            Some(tweak_pack_path) => match camera {
                None => Err(string_of("missing camera set; pass --camera-set <name>")),
                Some(camera_set) => match seed {
                    None => Err(string_of("missing seed; pass --seed <hex>")),
                    Some(seed_hex) => Ok(
                        LookdevCommandOptions { tweak_pack_path, camera_set, seed_hex, run_id },
                    ),
                },
            },
        }
    }
}

/// The run id a bootstrap command gets when none is given: the command, the slug of its
/// source path and the time in milliseconds, joined by dashes.
pub open spec fn default_run_id_text(command: Seq<char>, source_path: Seq<char>, now_unix_ms: u64) -> Seq<
    char,
> {
    command + "-"@ + artifact_slug(source_path) + "-"@ + decimal(now_unix_ms as nat)
}

/// The run id a bootstrap command gets when none is given, as `default_run_id_text` describes.
pub fn default_run_id(command_name: &str, source_path: &str, now_unix_ms: u64) -> (r: String)
    ensures
        r@ == default_run_id_text(command_name@, source_path@, now_unix_ms),
{
    let mut r = string_of(command_name);
    push_str(&mut r, "-");
    let slug = artifact_component(source_path);
    push_str(&mut r, slug.as_str());
    push_str(&mut r, "-");
    push_decimal(&mut r, now_unix_ms);
    r
}

/// An artifact naming a source file by the path it was given.
pub fn source_artifact(role: &str, path: &str, media_type: &str) -> (r: ArtifactDescriptor)
    ensures
        r.role@ == role@,
        r.path@ == path@,
        r.media_type@ == media_type@,
{
    ArtifactDescriptor {
        role: string_of(role),
        path: string_of(path),
        media_type: string_of(media_type),
    }
}

/// A command that is reserved but not implemented yet: what its failed report says.
#[derive(Debug, Clone, PartialEq, Eq)]
pub struct UnavailableCommandPlan {
    pub command_name: String,
    pub run_id: String,
    pub summary: String,
    pub detail: String,
    pub artifacts: Vec<ArtifactDescriptor>,
}

/// The run id given, or the default one.
pub open spec fn chosen_run_id(
    run_id: Option<Seq<char>>,
    command: Seq<char>,
    source_path: Seq<char>,
    now_unix_ms: u64,
) -> Seq<char> {
    match run_id {
        Some(id) => id,
        None => default_run_id_text(command, source_path, now_unix_ms),
    }
}

fn run_id_or_default(run_id: Option<String>, command: &str, source_path: &str, now_unix_ms: u64) -> (r:
    String)
    ensures
        r@ == chosen_run_id(opt_view(run_id), command@, source_path@, now_unix_ms),
{
    match run_id {
        Some(id) => id,
        None => default_run_id(command, source_path, now_unix_ms),
    }
}

/// What the lookdev command reports for its arguments, as `LookdevCommandOptions::parse`
/// reads them, at time `now_unix_ms`.
pub fn plan_lookdev(args: Vec<String>, now_unix_ms: u64) -> (r: Result<UnavailableCommandPlan, String>)
    ensures
        match lookdev_options_from(string_views(args@), 0, (None, None, None, None)) {
            Ok(v) => r matches Ok(p) && p.command_name@ == "lookdev"@ && p.run_id@ == chosen_run_id(
                v.3,
                "lookdev"@,
                v.0,
                now_unix_ms,
            ) && p.summary@ == "Lookdev sweep is not implemented yet for pack `"@ + v.0
                + "` and camera `"@ + v.1 + "`."@ && p.detail@
                == "Lookdev automation lands in PR-032; requested seed was "@ + v.2 + "."@
                && p.artifacts@.len() == 1 && p.artifacts@[0].role@ == "tweak_pack_source"@
                && p.artifacts@[0].path@ == v.0 && p.artifacts@[0].media_type@ == "text/ron"@,
            Err(e) => r matches Err(x) && x@ == e,
        },
{
    let options = match LookdevCommandOptions::parse(args) {
        Ok(o) => o,
        Err(e) => return Err(e),
    };
    let run_id = run_id_or_default(
        options.run_id,
        "lookdev",
        options.tweak_pack_path.as_str(),
        now_unix_ms,
    );
    let mut summary = string_of("Lookdev sweep is not implemented yet for pack `");
    push_str(&mut summary, options.tweak_pack_path.as_str());
    push_str(&mut summary, "` and camera `");
    push_str(&mut summary, options.camera_set.as_str());
    push_str(&mut summary, "`.");
    let mut detail = string_of("Lookdev automation lands in PR-032; requested seed was ");
    push_str(&mut detail, options.seed_hex.as_str());
    push_str(&mut detail, ".");
    let artifacts = vec![
        source_artifact("tweak_pack_source", options.tweak_pack_path.as_str(), "text/ron"),
    ];
    Ok(
        UnavailableCommandPlan {
            command_name: string_of("lookdev"),
            run_id,
            summary,
            detail,
            artifacts,
        },
    )
}

/// What the perf command reports for its arguments, as `ScenarioCommandOptions::parse` reads
/// them for `perf`, at time `now_unix_ms`.
pub fn plan_perf(args: Vec<String>, now_unix_ms: u64) -> (r: Result<UnavailableCommandPlan, String>)
    ensures
        match scenario_options_from("perf"@, string_views(args@), 0, None, None) {
            Ok(v) => r matches Ok(p) && p.command_name@ == "perf"@ && p.run_id@ == chosen_run_id(
                v.1,
                "perf"@,
                v.0,
                now_unix_ms,
            ) && p.summary@ == "Perf check is not implemented yet for scenario `"@ + v.0 + "`."@
                && p.detail@
                == "The stable CLI surface exists now; perf instrumentation lands in PR-036."@
                && p.artifacts@.len() == 1 && p.artifacts@[0].role@ == "scenario_source"@
                && p.artifacts@[0].path@ == v.0 && p.artifacts@[0].media_type@ == "text/ron"@,
            Err(e) => r matches Err(x) && x@ == e,
        },
{
    let options = match ScenarioCommandOptions::parse("perf", args) {
        Ok(o) => o,
        Err(e) => return Err(e),
    };
    let run_id = run_id_or_default(options.run_id, "perf", options.scenario_path.as_str(), now_unix_ms);
    let mut summary = string_of("Perf check is not implemented yet for scenario `");
    push_str(&mut summary, options.scenario_path.as_str());
    push_str(&mut summary, "`.");
    let artifacts = vec![
        source_artifact("scenario_source", options.scenario_path.as_str(), "text/ron"),
    ];
    Ok(
        UnavailableCommandPlan {
            command_name: string_of("perf"),
            run_id,
            summary,
            detail: string_of(
                "The stable CLI surface exists now; perf instrumentation lands in PR-036.",
            ),
            artifacts,
        },
    )
}

/// The note every reserved command's report carries.
pub open spec fn unavailable_note() -> Seq<char> {
    "Bootstrap command stub only; the CLI surface is intentionally reserved before the owning roadmap task lands."@
}

/// The failed report of a reserved command: the terminal report path first among its
/// artifacts, a build failure with the plan's summary and detail, and the stub note.
pub fn unavailable_report(
    plan: UnavailableCommandPlan,
    terminal_report_path: &str,
    metadata: RunMetadata,
) -> (r: CommandExecutionReport)
    ensures
        r.schema_version@ == HARNESS_SCHEMA_VERSION@,
        r.metadata == metadata,
        r.command_name == plan.command_name,
        r.result.status == HarnessStatus::Failed,
        r.result.summary == plan.summary,
        r.result.failure_kind == Some(FailureKind::BuildFailed),
        r.result.details == Some(plan.detail),
        r.artifacts@.len() == plan.artifacts@.len() + 1,
        r.artifacts@[0].role@ == "terminal_report"@,
        r.artifacts@[0].path@ == terminal_report_path@,
        r.artifacts@[0].media_type@ == "application/json"@,
        r.artifacts@.subrange(1, r.artifacts@.len() as int) == plan.artifacts@,
        r.notes matches Some(n) && string_views(n@) == seq![unavailable_note()],
{
    let mut artifacts = plan.artifacts;
    let ghost planned = artifacts@;
    artifacts.insert(
        0,
        ArtifactDescriptor {
            role: string_of("terminal_report"),
            path: string_of(terminal_report_path),
            media_type: string_of("application/json"),
        },
    );
    assert(artifacts@.subrange(1, artifacts@.len() as int) =~= planned);
    let notes = vec![
        string_of(
            "Bootstrap command stub only; the CLI surface is intentionally reserved before the owning roadmap task lands.",
        ),
    ];
    assert(string_views(notes@) =~= seq![unavailable_note()]);
    CommandExecutionReport {
        schema_version: string_of(HARNESS_SCHEMA_VERSION),
        metadata,
        command_name: plan.command_name,
        result: ResultEnvelope {
            status: HarnessStatus::Failed,
            summary: plan.summary,
            failure_kind: Some(FailureKind::BuildFailed),
            details: Some(plan.detail),
        },
        artifacts,
        notes: Some(notes),
    }
}

/// How far a capture got: the scenario did not load (the error's text), the render failed
/// (the scenario's declared path and the error), or the frame was captured (the declared path,
/// what was captured, and where the PNG and its metadata were written).
#[derive(Debug, Clone, PartialEq, Eq)]
pub enum CaptureStage {
    LoadFailed(String),
    RenderFailed { scenario_path: String, error: String },
    Captured {
        scenario_path: String,
        outcome: OffscreenCaptureOutcome,
        png_path: String,
        metadata_path: String,
    },
}

/// What a capture run reports: its result, notes and artifacts, and whether it succeeded.
#[derive(Debug, Clone, PartialEq, Eq)]
pub struct CaptureReportPlan {
    pub result: ResultEnvelope,
    pub notes: Option<Vec<String>>,
    pub artifacts: Vec<ArtifactDescriptor>,
    pub succeeded: bool,
}

/// An artifact by its parts.
pub open spec fn artifact_is(a: ArtifactDescriptor, role: Seq<char>, path: Seq<char>, media_type: Seq<char>) -> bool {
    a.role@ == role && a.path@ == path && a.media_type@ == media_type
}

/// The note a failed render adds.
pub open spec fn capture_render_note() -> Seq<char> {
    "Offscreen capture uses the deterministic seed-derived clear color until scene extraction lands."@
}

/// What a capture run reports at each stage. Every report lists the terminal report and the
/// scenario source given; a capture adds the PNG and its metadata. A scenario that did not
/// load is a failed scenario, with no notes; a failed render is a runtime crash, with a note
/// on the clear colour; a capture passes, noting the adapter and the frame.
pub fn plan_capture_report(
    scenario_path: &str,
    terminal_report_path: &str,
    stage: CaptureStage,
) -> (r: CaptureReportPlan)
    ensures
        r.artifacts@.len() >= 2,
        artifact_is(r.artifacts@[0], "terminal_report"@, terminal_report_path@, "application/json"@),
        artifact_is(r.artifacts@[1], "scenario_source"@, scenario_path@, "text/ron"@),
        match stage {
            CaptureStage::LoadFailed(e) => {
                &&& r.artifacts@.len() == 2
                &&& r.result.status == HarnessStatus::Failed
                &&& r.result.summary@ == "Failed to load capture scenario `"@ + scenario_path@ + "`."@
                &&& r.result.failure_kind == Some(FailureKind::ScenarioFailed)
                &&& r.result.details matches Some(d) && d@ == e@
                &&& r.notes is None
                &&& !r.succeeded
            },
            CaptureStage::RenderFailed { scenario_path: declared, error } => {
                &&& r.artifacts@.len() == 2
                &&& r.result.status == HarnessStatus::Failed
                &&& r.result.summary@ == "Failed to capture an offscreen PNG for scenario `"@
                    + declared@ + "`."@
                &&& r.result.failure_kind == Some(FailureKind::RuntimeCrash)
                &&& r.result.details matches Some(d) && d@ == error@
                &&& r.notes matches Some(n) && string_views(n@) == seq![capture_render_note()]
                &&& !r.succeeded
            },
            CaptureStage::Captured { scenario_path: declared, outcome, png_path, metadata_path } => {
                &&& r.artifacts@.len() == 4
                &&& artifact_is(r.artifacts@[2], "capture_png"@, png_path@, "image/png"@)
                &&& artifact_is(r.artifacts@[3], "capture_metadata"@, metadata_path@, "application/json"@)
                &&& r.result.status == HarnessStatus::Passed
                &&& r.result.summary@ == "Captured a "@ + decimal(outcome.frame.size.width as nat)
                    + "x"@ + decimal(outcome.frame.size.height as nat)
                    + " offscreen PNG for scenario `"@ + declared@ + "`."@
                &&& r.result.failure_kind is None
                &&& r.result.details is None
                &&& r.notes matches Some(n) && string_views(n@) == seq![
                    "Adapter backend="@ + outcome.adapter.backend@ + " name="@ + outcome.adapter.name@
                        + " device_type="@ + outcome.adapter.device_type@ + "."@,
                    "Color space="@ + "rgba8_unorm_srgb"@ + " non_empty_pixels="@ + decimal(
                        outcome.frame.non_empty_pixels as nat,
                    ) + "."@,
                ]
                &&& r.succeeded
            },
        },
{
    let mut artifacts = vec![
        source_artifact("terminal_report", terminal_report_path, "application/json"),
        source_artifact("scenario_source", scenario_path, "text/ron"),
    ];
    match stage {
        CaptureStage::LoadFailed(e) => {
            let mut summary = string_of("Failed to load capture scenario `");
            push_str(&mut summary, scenario_path);
            push_str(&mut summary, "`.");
            CaptureReportPlan {
                result: ResultEnvelope {
                    status: HarnessStatus::Failed,
                    summary,
                    failure_kind: Some(FailureKind::ScenarioFailed),
                    details: Some(e),
                },
                notes: None,
                artifacts,
                succeeded: false,
            }
        },
        CaptureStage::RenderFailed { scenario_path: declared, error } => {
            let mut summary = string_of("Failed to capture an offscreen PNG for scenario `");
            push_str(&mut summary, declared.as_str());
            push_str(&mut summary, "`.");
            let notes = vec![string_of(
                "Offscreen capture uses the deterministic seed-derived clear color until scene extraction lands.",
            )];
            assert(string_views(notes@) =~= seq![capture_render_note()]);
            CaptureReportPlan {
                result: ResultEnvelope {
                    status: HarnessStatus::Failed,
                    summary,
                    failure_kind: Some(FailureKind::RuntimeCrash),
                    details: Some(error),
                },
                notes: Some(notes),
                artifacts,
                succeeded: false,
            }
        },
        CaptureStage::Captured { scenario_path: declared, outcome, png_path, metadata_path } => {
            artifacts.push(source_artifact("capture_png", png_path.as_str(), "image/png"));
            artifacts.push(
                source_artifact("capture_metadata", metadata_path.as_str(), "application/json"),
            );
            let mut summary = string_of("Captured a ");
            push_decimal(&mut summary, outcome.frame.size.width as u64);
            push_str(&mut summary, "x");
            push_decimal(&mut summary, outcome.frame.size.height as u64);
            push_str(&mut summary, " offscreen PNG for scenario `");
            push_str(&mut summary, declared.as_str());
            push_str(&mut summary, "`.");
            let mut adapter = string_of("Adapter backend=");
            push_str(&mut adapter, outcome.adapter.backend.as_str());
            push_str(&mut adapter, " name=");
            push_str(&mut adapter, outcome.adapter.name.as_str());
            push_str(&mut adapter, " device_type=");
            push_str(&mut adapter, outcome.adapter.device_type.as_str());
            push_str(&mut adapter, ".");
            let mut frame = string_of("Color space=");
            push_str(&mut frame, outcome.frame.color_space.as_str());
            push_str(&mut frame, " non_empty_pixels=");
            push_decimal(&mut frame, outcome.frame.non_empty_pixels);
            push_str(&mut frame, ".");
            let notes = vec![adapter, frame];
            assert(string_views(notes@) =~= seq![notes@[0]@, notes@[1]@]);
            CaptureReportPlan {
                result: ResultEnvelope {
                    status: HarnessStatus::Passed,
                    summary,
                    failure_kind: None,
                    details: None,
                },
                notes: Some(notes),
                artifacts,
                succeeded: true,
            }
        },
    }
}

} // verus!
