use vstd::prelude::*;

use crate::string_map::EntryViews;
use crate::text::{decimal, has_prefix, push_decimal, push_str, str_eq, string_of};
use crate::wr_core::config_packs::{SeedConfigPack, pack_validation};
use crate::wr_core::tweaks::{
    RegistryState, TweakPack, TweakValue, apply_entries, default_registry_state,
};
use crate::wr_core::{CrateBoundary, CrateEntryPoint, entry_card};
use crate::wr_ecs::{
    HeadlessActorSpawn, HeadlessScenarioWorld, HeadlessScriptedInput, MetricReading,
    ActorView, InputState, InputView, metric_of, optional_chars, sort_by_id, step_line,
    tweaks_applied_line, world_records, apply_inputs,
};
use crate::wr_telemetry::SeedInfo;
use crate::wr_tools_harness::contract::{
    FailureKind, HarnessStatus, ResultEnvelope, ScenarioActorSpawn, ScenarioAssertion,
    ScenarioAssertionResult, ScenarioExecutionMetrics, ScenarioRequest, ScriptedInput,
};
use crate::wr_world_seed::{
    FNV_OFFSET_BASIS, RootSeed, SeedConfigOverride, SeedDerivation, SeedGraph, concat_parts,
    fnv_hash, graph_error, hex_text, invalid_hex_reason, is_standard_graph, parse_seed_hex,
    stable_hash_hex, stream_seed,
};

verus! {

/// The entry point of the game composition crate: the runtime the app shells target.
pub fn init_entrypoint() -> (r: CrateEntryPoint)
    ensures
        entry_card(r, "wr_game"@, CrateBoundary::Composition, true),
{
    CrateEntryPoint::new("wr_game", CrateBoundary::Composition, true)
}

/// The config pack a report's seed was derived under: its name and the overrides it applied.
#[derive(Debug, Clone, PartialEq, Eq)]
pub struct SeedConfigPackInfo {
    pub name: String,
    pub overrides: Vec<SeedConfigOverride>,
}

/// The seed of a scenario report: the scenario's seed record, the parsed root seed, and the
/// derivations and config pack of the seed graph built from it.
#[derive(Debug, Clone, PartialEq, Eq)]
pub struct ReportSeedInfo {
    pub label: String,
    pub value_hex: String,
    pub stream: Option<String>,
    pub derivations: Vec<SeedDerivation>,
    pub config_pack: Option<SeedConfigPackInfo>,
}

/// What a headless scenario run produced: the seed it used, its verdict, what it counted, every
/// assertion it checked, the hash of its final state and its notes.
#[derive(Debug, Clone, PartialEq)]
pub struct HeadlessScenarioSummary {
    pub report_seed: ReportSeedInfo,
    pub result: ResultEnvelope,
    pub metrics: ScenarioExecutionMetrics,
    pub assertions: Vec<ScenarioAssertionResult>,
    pub determinism_hash: String,
    pub notes: Option<Vec<String>>,
}

/// The name and overrides of the pack a seed graph is built under: the given pack, or the empty
/// default pack.
pub open spec fn pack_name_of(pack: Option<&SeedConfigPack>) -> Seq<char> {
    match pack {
        Some(p) => p.pack_name@,
        None => "default"@,
    }
}

/// The overrides of the pack a seed graph is built under.
pub open spec fn pack_overrides_of(pack: Option<&SeedConfigPack>) -> EntryViews {
    match pack {
        Some(p) => p.seed_overrides@,
        None => Seq::empty(),
    }
}

/// The seed graph of the given pack builds: it is valid and its overrides are seeds of the
/// standard paths.
pub open spec fn pack_builds(pack: Option<&SeedConfigPack>) -> bool {
    match pack {
        Some(p) => graph_error(
            pack_validation(p.schema_version@, p.pack_name@, p.seed_overrides@),
            p.seed_overrides@,
        ).is_none(),
        None => true,
    }
}

/// `r` is the report seed of `seed` with root `root`: the record's label and stream, the root's
/// hex text, and the derivations and pack of the standard seed graph under that pack.
pub open spec fn is_report_seed(
    r: ReportSeedInfo,
    seed: SeedInfo,
    root: u64,
    name: Seq<char>,
    s: EntryViews,
) -> bool {
    &&& r.label@ == seed.label@
    &&& r.value_hex@ == hex_text(root)
    &&& optional_chars(r.stream) == optional_chars(seed.stream)
    &&& exists|g: SeedGraph|
        {
            &&& is_standard_graph(g, root, name, s)
            &&& r.derivations == g.derivations
            &&& r.config_pack == Some(
                SeedConfigPackInfo { name: g.config_pack_name, overrides: g.overrides },
            )
        }
}

fn clone_optional(s: &Option<String>) -> (r: Option<String>)
    ensures
        optional_chars(r) == optional_chars(*s),
{
    match s {
        Some(t) => Some(t.clone()),
        None => None,
    }
}

/// The report seed of a scenario whose seed parsed to `root`: the standard seed graph under the
/// given pack, or under the empty default pack.
pub fn build_report_seed_info(
    seed: &SeedInfo,
    root: RootSeed,
    seed_config_pack: Option<&SeedConfigPack>,
) -> (r: ReportSeedInfo)
    requires
        pack_builds(seed_config_pack),
    ensures
        is_report_seed(
            r,
            *seed,
            root@,
            pack_name_of(seed_config_pack),
            pack_overrides_of(seed_config_pack),
        ),
{
    let graph = match SeedGraph::standard(root, seed_config_pack) {
        Ok(g) => g,
        Err(_) => {
            proof {
                assert(false);
            }
            return ReportSeedInfo {
                label: String::new(),
                value_hex: String::new(),
                stream: None,
                derivations: Vec::new(),
                config_pack: None,
            };
        },
    };
    let ghost g = graph;
    let r = ReportSeedInfo {
        label: seed.label.clone(),
        value_hex: root.to_hex(),
        stream: clone_optional(&seed.stream),
        derivations: graph.derivations,
        config_pack: Some(
            SeedConfigPackInfo { name: graph.config_pack_name, overrides: graph.overrides },
        ),
    };
    assert(is_standard_graph(g, root@, pack_name_of(seed_config_pack), pack_overrides_of(seed_config_pack)));
    r
}

/// How many of the frames are `Some(f)`.
pub open spec fn count_at(s: Seq<Option<u32>>, f: u32) -> nat
    decreases s.len(),
{
    if s.len() == 0 {
        0
    } else {
        count_at(s.drop_last(), f) + if s.last() == Some(f) {
            1nat
        } else {
            0nat
        }
    }
}

/// How many of the frames are `Some(x)` with `x < n`.
pub open spec fn count_below(s: Seq<Option<u32>>, n: int) -> nat
    decreases s.len(),
{
    if s.len() == 0 {
        0
    } else {
        count_below(s.drop_last(), n) + if s.last() matches Some(x) && x < n {
            1nat
        } else {
            0nat
        }
    }
}

proof fn lemma_count_below_zero(s: Seq<Option<u32>>)
    ensures
        count_below(s, 0) == 0,
    decreases s.len(),
{
    if s.len() > 0 {
        lemma_count_below_zero(s.drop_last());
    }
}

proof fn lemma_count_below_step(s: Seq<Option<u32>>, f: u32)
    ensures
        count_below(s, f + 1) == count_below(s, f as int) + count_at(s, f),
        count_below(s, f + 1) <= s.len(),
    decreases s.len(),
{
    if s.len() > 0 {
        lemma_count_below_step(s.drop_last(), f);
    }
}

/// The checks of the assertions whose frame entry is `key`, in order: each gives the
/// assertion's index, the frame it is reported at and the number of steps simulated when it is
/// made.
pub open spec fn due_entries(s: Seq<Option<u32>>, key: Option<u32>, frame: u32, steps: u32) -> Seq<
    (int, u32, u32),
>
    decreases s.len(),
{
    if s.len() == 0 {
        seq![]
    } else if s.last() == key {
        due_entries(s.drop_last(), key, frame, steps).push(((s.len() - 1) as int, frame, steps))
    } else {
        due_entries(s.drop_last(), key, frame, steps)
    }
}

/// The checks made during the first `n` steps: after step `f + 1`, those of the assertions
/// due at frame `f`, in the assertions' order.
pub open spec fn framed_checks(s: Seq<Option<u32>>, n: nat) -> Seq<(int, u32, u32)>
    decreases n,
{
    if n == 0 {
        seq![]
    } else {
        framed_checks(s, (n - 1) as nat) + due_entries(s, Some((n - 1) as u32), (n - 1) as u32, n as u32)
    }
}

/// The frame at which the assertions without a frame are reported after `steps` steps: the last
/// one simulated, or 0.
pub open spec fn last_frame(steps: u32) -> u32 {
    if steps > 0 {
        (steps - 1) as u32
    } else {
        0
    }
}

/// The checks a full run of the scenario makes, in order: the assertions due at each frame,
/// frame by frame, then those without a frame at the last frame.
pub open spec fn run_checks(scenario: ScenarioRequest) -> Seq<(int, u32, u32)> {
    let afr = assertion_frames(scenario);
    framed_checks(afr, scenario.fixed_steps as nat) + due_entries(
        afr,
        None,
        last_frame(scenario.fixed_steps),
        scenario.fixed_steps,
    )
}

/// `p` is the start of `q`.
pub open spec fn starts<A>(p: Seq<A>, q: Seq<A>) -> bool {
    p.len() <= q.len() && forall|k: int| 0 <= k < p.len() ==> p[k] == #[trigger] q[k]
}

/// The record `rec` is what checking assertion `a` at `frame` gives when the metric reads
/// `reading`: the judge's verdict on a value, or a failure naming a metric the world lacks.
pub open spec fn is_verdict<J: Fn(MetricReading, &ScenarioAssertion, u32) -> ScenarioAssertionResult>(
    judge: J,
    reading: Option<MetricReading>,
    a: ScenarioAssertion,
    frame: u32,
    rec: ScenarioAssertionResult,
) -> bool {
    match reading {
        Some(m) => call_ensures(judge, (m, &a, frame), rec),
        None => {
            &&& !rec.passed
            &&& rec.metric@ == a.metric@
            &&& rec.comparator@ == a.comparator@
            &&& rec.frame == frame
            &&& rec.expected == a.expected
            &&& rec.actual is None
            &&& rec.tolerance == a.tolerance
            &&& rec.details matches Some(d) && d@ == "metric `"@ + a.metric@ + "` is not available"@
        },
    }
}

/// The value of `metric` in a world that started with `actors`, `tweaks` and input state `st0`
/// and has run `steps` steps of the scripted inputs `views` at `rate`.
pub open spec fn reading_after(
    actors: Seq<ActorView>,
    tweaks: RegistryState,
    st0: InputState,
    views: Seq<InputView>,
    rate: u32,
    steps: u32,
    metric: Seq<char>,
) -> Option<MetricReading> {
    metric_of(actors.len(), steps, run_steps(st0, views, rate, steps as nat), tweaks, metric)
}

/// The value of `metric` after `steps` steps of the scenario under `root` with `pack` applied.
pub open spec fn scenario_reading(
    scenario: ScenarioRequest,
    root: u64,
    pack: Option<&TweakPack>,
    steps: u32,
    metric: Seq<char>,
) -> Option<MetricReading> {
    reading_after(
        scenario_actors(scenario, root),
        start_tweaks(pack),
        start_inputs(pack),
        input_views(scenario),
        scenario.simulation_rate_hz,
        steps,
        metric,
    )
}

/// What a run that went through its steps reports besides its records: completed, or stopped at
/// its last record's check, with that check's steps simulated, the record's message, and the
/// note saying why it ended.
#[verifier::opaque]
pub open spec fn is_run_report(r: HeadlessScenarioSummary, scenario: ScenarioRequest) -> bool {
    if r.result.status == HarnessStatus::Passed {
        &&& r.result.summary@ == "Scenario completed "@ + decimal(scenario.fixed_steps as nat)
            + " fixed steps without assertion failures."@
        &&& r.result.details is None
        &&& r.notes matches Some(n) && n@.len() == 1
            && n@[0]@ == "Headless execution uses the ECS schedule spine."@
    } else {
        let k = r.assertions@.len() - 1;
        let c = run_checks(scenario)[k];
        &&& r.assertions@.len() > 0
        &&& r.metrics.frames_simulated == c.2
        &&& r.result.details matches Some(d) && d@ == failure_text(
            r.assertions@[k],
            scenario.assertions@[c.0].metric@,
        )
        &&& r.result.summary@ == if scenario.assertions@[c.0].frame is Some {
            "Scenario failed on frame "@ + decimal(c.1 as nat) + " after "@ + decimal(c.2 as nat)
                + " simulated steps."@
        } else {
            "Scenario failed after "@ + decimal(c.2 as nat) + " simulated steps."@
        }
        &&& r.notes matches Some(n) && n@.len() == 1
            && n@[0]@ == "Execution stopped at the first failing assertion."@
    }
}

/// Each of `recs` is, in order, the outcome of the scenario's next check: the verdict on the
/// assertion's metric after the steps of that check, reported at its frame.
pub open spec fn are_run_verdicts<J: Fn(MetricReading, &ScenarioAssertion, u32) -> ScenarioAssertionResult>(
    judge: J,
    scenario: ScenarioRequest,
    root: u64,
    pack: Option<&TweakPack>,
    recs: Seq<ScenarioAssertionResult>,
) -> bool {
    &&& recs.len() <= run_checks(scenario).len()
    &&& forall|k: int|
        0 <= k < recs.len() ==> {
            let c = run_checks(scenario)[k];
            is_verdict(
                judge,
                scenario_reading(scenario, root, pack, c.2, scenario.assertions@[c.0].metric@),
                scenario.assertions@[c.0],
                c.1,
                #[trigger] recs[k],
            )
        }
}

proof fn lemma_due_entries_prefix(s: Seq<Option<u32>>, key: Option<u32>, frame: u32, steps: u32, j: int)
    requires
        0 <= j <= s.len(),
    ensures
        starts(due_entries(s.take(j), key, frame, steps), due_entries(s, key, frame, steps)),
    decreases s.len(),
{
    if j == s.len() {
        assert(s.take(j) =~= s);
    } else {
        let t = s.drop_last();
        assert(s.take(j) =~= t.take(j));
        lemma_due_entries_prefix(t, key, frame, steps, j);
    }
}

proof fn lemma_due_entries_fields(s: Seq<Option<u32>>, key: Option<u32>, frame: u32, steps: u32)
    ensures
        forall|k: int|
            0 <= k < due_entries(s, key, frame, steps).len() ==> {
                let c = #[trigger] due_entries(s, key, frame, steps)[k];
                &&& 0 <= c.0 < s.len()
                &&& s[c.0] == key
                &&& c.1 == frame
                &&& c.2 == steps
            },
    decreases s.len(),
{
    if s.len() > 0 {
        let p = due_entries(s.drop_last(), key, frame, steps);
        lemma_due_entries_fields(s.drop_last(), key, frame, steps);
        assert forall|k: int| 0 <= k < due_entries(s, key, frame, steps).len() implies {
            let c = #[trigger] due_entries(s, key, frame, steps)[k];
            &&& 0 <= c.0 < s.len()
            &&& s[c.0] == key
            &&& c.1 == frame
            &&& c.2 == steps
        } by {
            if k < p.len() {
                assert(due_entries(s, key, frame, steps)[k] == p[k]);
                assert(s.drop_last()[p[k].0] == s[p[k].0]);
            }
        }
    }
}

proof fn lemma_framed_checks_prefix(s: Seq<Option<u32>>, n: nat, m: nat)
    requires
        n <= m,
    ensures
        starts(framed_checks(s, n), framed_checks(s, m)),
    decreases m,
{
    if n < m {
        lemma_framed_checks_prefix(s, n, (m - 1) as nat);
    }
}

proof fn lemma_framed_checks_fields(s: Seq<Option<u32>>, n: nat)
    requires
        n <= u32::MAX,
    ensures
        forall|k: int|
            0 <= k < framed_checks(s, n).len() ==> {
                let c = #[trigger] framed_checks(s, n)[k];
                &&& 0 <= c.0 < s.len()
                &&& s[c.0] == Some(c.1)
                &&& c.2 == c.1 + 1
                &&& c.1 < n
            },
    decreases n,
{
    if n > 0 {
        let p = framed_checks(s, (n - 1) as nat);
        let d = due_entries(s, Some((n - 1) as u32), (n - 1) as u32, n as u32);
        lemma_framed_checks_fields(s, (n - 1) as nat);
        lemma_due_entries_fields(s, Some((n - 1) as u32), (n - 1) as u32, n as u32);
        assert forall|k: int| 0 <= k < framed_checks(s, n).len() implies {
            let c = #[trigger] framed_checks(s, n)[k];
            &&& 0 <= c.0 < s.len()
            &&& s[c.0] == Some(c.1)
            &&& c.2 == c.1 + 1
            &&& c.1 < n
        } by {
            if k < p.len() {
                assert(framed_checks(s, n)[k] == p[k]);
            } else {
                assert(framed_checks(s, n)[k] == d[k - p.len()]);
            }
        }
    }
}

proof fn lemma_starts_after(a: Seq<(int, u32, u32)>, p: Seq<(int, u32, u32)>, q: Seq<(int, u32, u32)>, full: Seq<(int, u32, u32)>)
    requires
        starts(p, q),
        starts(a + q, full),
    ensures
        starts(a + p, full),
{
    assert forall|k: int| 0 <= k < (a + p).len() implies (a + p)[k] == #[trigger] full[k] by {
        if k < a.len() {
            assert((a + p)[k] == a[k] && (a + q)[k] == a[k]);
        } else {
            assert((a + p)[k] == p[k - a.len()] && (a + q)[k] == q[k - a.len()]);
        }
        assert((a + q)[k] == full[k]);
    }
}

/// The frames of a scenario's scripted inputs.
pub open spec fn input_frames(scenario: ScenarioRequest) -> Seq<Option<u32>> {
    scenario.scripted_inputs@.map_values(|i: ScriptedInput| Some(i.frame))
}

/// The frames of a scenario's assertions.
pub open spec fn assertion_frames(scenario: ScenarioRequest) -> Seq<Option<u32>> {
    scenario.assertions@.map_values(|a: ScenarioAssertion| a.frame)
}

/// The tweak pack, if any, applies to a fresh registry: it has the current schema version and
/// no entry is refused.
pub open spec fn tweak_pack_applies(pack: Option<&TweakPack>) -> bool {
    match pack {
        Some(p) => p.schema_version@ == crate::wr_core::tweaks::TWEAK_PACK_SCHEMA_VERSION@
            && apply_entries(default_registry_state(), p.entries@).1.is_none(),
        None => true,
    }
}

proof fn lemma_apply_inputs_bound(st: crate::wr_ecs::InputState, frame: u32, inputs: Seq<crate::wr_ecs::InputView>)
    ensures
        crate::wr_ecs::apply_inputs(st, frame, inputs).0 <= st.0 + inputs.len(),
    decreases inputs.len(),
{
    if inputs.len() > 0 {
        lemma_apply_inputs_bound(st, frame, inputs.drop_last());
    }
}

fn string_bytes(s: &str) -> (r: Vec<u8>)
    ensures
        r@ == vstd::utf8::encode_utf8(s@),
{
    let b = s.as_bytes();
    let mut r: Vec<u8> = Vec::new();
    let mut j: usize = 0;
    while j < b.len()
        invariant
            j <= b@.len(),
            b@ == vstd::utf8::encode_utf8(s@),
            r@ == b@.subrange(0, j as int),
        decreases b@.len() - j,
    {
        r.push(b[j]);
        j = j + 1;
        assert(r@ =~= b@.subrange(0, j as int));
    }
    assert(b@.subrange(0, b@.len() as int) =~= b@);
    r
}

fn scenario_metrics(
    scenario: &ScenarioRequest,
    frames_simulated: u32,
    simulation_rate_hz: u32,
    spawned_actor_count: u32,
    applied_input_count: u32,
) -> (r: ScenarioExecutionMetrics)
    ensures
        r == (ScenarioExecutionMetrics {
            frames_requested: scenario.fixed_steps,
            frames_simulated,
            simulation_rate_hz,
            spawned_actor_count,
            scripted_input_count: scenario.scripted_inputs@.len() as u32,
            applied_input_count,
        }),
{
    ScenarioExecutionMetrics {
        frames_requested: scenario.fixed_steps,
        frames_simulated,
        simulation_rate_hz,
        spawned_actor_count,
        scripted_input_count: scenario.scripted_inputs.len() as u32,
        applied_input_count,
    }
}

/// The summary of a scenario that could not run its steps: failed with `details`, the counts
/// given, and the hash of the seed text, the details and the frames simulated.
fn failed_summary(
    scenario: &ScenarioRequest,
    report_seed: ReportSeedInfo,
    frames_simulated: u32,
    applied_input_count: u32,
    assertions: Vec<ScenarioAssertionResult>,
    details: String,
) -> (r: HeadlessScenarioSummary)
    ensures
        r.report_seed == report_seed,
        r.result.status == HarnessStatus::Failed,
        r.result.summary@ == "Scenario could not be executed."@,
        r.result.failure_kind == Some(FailureKind::ScenarioFailed),
        r.result.details matches Some(d) && d@ == details@,
        r.metrics.frames_requested == scenario.fixed_steps,
        r.metrics.frames_simulated == frames_simulated,
        r.metrics.simulation_rate_hz == scenario.simulation_rate_hz,
        r.metrics.applied_input_count == applied_input_count,
        r.metrics.spawned_actor_count == scenario.spawned_actors@.len() as u32,
        r.metrics.scripted_input_count == scenario.scripted_inputs@.len() as u32,
        r.notes matches Some(n) && n@.len() == 1
            && n@[0]@ == "Execution failed before the fixed-step simulation completed."@,
        r.assertions == assertions,
        r.determinism_hash@ == hex_text(
            fnv_hash(
                FNV_OFFSET_BASIS,
                concat_parts(
                    seq![
                        vstd::utf8::encode_utf8(scenario.seed.value_hex@),
                        vstd::utf8::encode_utf8(details@),
                        vstd::utf8::encode_utf8(decimal(frames_simulated as nat)),
                    ],
                ),
            ),
        ),
{
    let metrics = scenario_metrics(
        scenario,
        frames_simulated,
        scenario.simulation_rate_hz,
        scenario.spawned_actors.len() as u32,
        applied_input_count,
    );
    let mut frames_text = String::new();
    push_decimal(&mut frames_text, frames_simulated as u64);
    let parts = vec![
        string_bytes(scenario.seed.value_hex.as_str()),
        string_bytes(details.as_str()),
        string_bytes(frames_text.as_str()),
    ];
    assert(parts@.map_values(|p: Vec<u8>| p@) =~= seq![
        vstd::utf8::encode_utf8(scenario.seed.value_hex@),
        vstd::utf8::encode_utf8(details@),
        vstd::utf8::encode_utf8(decimal(frames_simulated as nat)),
    ]);
    let determinism_hash = stable_hash_hex(parts.as_slice());
    HeadlessScenarioSummary {
        report_seed,
        result: ResultEnvelope {
            status: HarnessStatus::Failed,
            summary: string_of("Scenario could not be executed."),
            failure_kind: Some(FailureKind::ScenarioFailed),
            details: Some(details),
        },
        metrics,
        assertions,
        determinism_hash,
        notes: Some(vec![string_of("Execution failed before the fixed-step simulation completed.")]),
    }
}

/// The report seed of a scenario whose seed did not parse: its own record, with no graph.
fn plain_report_seed(seed: &SeedInfo) -> (r: ReportSeedInfo)
    ensures
        r.label@ == seed.label@,
        r.value_hex@ == seed.value_hex@,
        optional_chars(r.stream) == optional_chars(seed.stream),
        r.derivations@.len() == 0,
        r.config_pack is None,
{
    ReportSeedInfo {
        label: seed.label.clone(),
        value_hex: seed.value_hex.clone(),
        stream: clone_optional(&seed.stream),
        derivations: Vec::new(),
        config_pack: None,
    }
}


/// The record line of an assertion outcome, with `actual` the text of its actual value.
pub open spec fn assertion_line(r: ScenarioAssertionResult, actual: Seq<char>) -> Seq<char> {
    "assert:"@ + r.metric@ + ":"@ + r.comparator@ + ":"@ + decimal(r.frame as nat) + ":"@ + actual
        + ":"@ + if r.passed {
        "true"@
    } else {
        "false"@
    }
}

/// The lines a finished run hashes: the world's records, a line per assertion outcome, the
/// seed text and the number of steps requested.
pub open spec fn summary_lines(
    world_lines: Seq<Seq<char>>,
    records: Seq<ScenarioAssertionResult>,
    actual_texts: Seq<Seq<char>>,
    seed_hex: Seq<char>,
    fixed_steps: u32,
) -> Seq<Seq<char>> {
    world_lines + Seq::new(records.len(), |k: int| assertion_line(records[k], actual_texts[k]))
        + seq!["seed="@ + seed_hex, "requested_steps="@ + decimal(fixed_steps as nat)]
}

/// The stable hash text of lines, each written as UTF-8.
pub open spec fn lines_hash(lines: Seq<Seq<char>>) -> Seq<char> {
    hex_text(
        fnv_hash(
            FNV_OFFSET_BASIS,
            concat_parts(lines.map_values(|l: Seq<char>| vstd::utf8::encode_utf8(l))),
        ),
    )
}

/// The scalar texts are what `scalar_text` wrote for each scalar tweak of `tweaks`.
pub open spec fn scalar_texts_from<F: Fn(u32) -> String>(
    texts: Seq<String>,
    tweaks: crate::wr_core::tweaks::RegistryState,
    scalar_text: F,
) -> bool {
    &&& texts.len() == 8
    &&& forall|i: int|
        0 <= i < 8 ==> match #[trigger] tweaks.0[i] {
            TweakValue::Scalar(b) => call_ensures(scalar_text, (b,), texts[i]),
            TweakValue::Toggle(_) => true,
        }
}

/// The actual texts are what `actual_text` wrote for each record's actual value.
pub open spec fn actual_texts_from<G: Fn(Option<u32>) -> String>(
    texts: Seq<String>,
    records: Seq<ScenarioAssertionResult>,
    actual_text: G,
) -> bool {
    &&& texts.len() == records.len()
    &&& forall|k: int|
        0 <= k < records.len() ==> call_ensures(actual_text, (records[k].actual,), #[trigger] texts[k])
}

fn scalar_text_of<F: Fn(u32) -> String>(v: TweakValue, scalar_text: &F) -> (r: String)
    requires
        forall|b: u32| call_requires(*scalar_text, (b,)),
    ensures
        v matches TweakValue::Scalar(b) ==> call_ensures(*scalar_text, (b,), r),
{
    match v {
        TweakValue::Scalar(b) => scalar_text(b),
        TweakValue::Toggle(_) => String::new(),
    }
}

fn bool_text(b: bool) -> (r: &'static str)
    ensures
        r@ == if b {
            "true"@
        } else {
            "false"@
        },
{
    if b {
        "true"
    } else {
        "false"
    }
}

proof fn lemma_encode_push(ps: Seq<Seq<u8>>, ls: Seq<Seq<char>>, l: Seq<char>)
    requires
        ps == ls.map_values(|x: Seq<char>| vstd::utf8::encode_utf8(x)),
    ensures
        ps.push(vstd::utf8::encode_utf8(l)) == ls.push(l).map_values(
            |x: Seq<char>| vstd::utf8::encode_utf8(x),
        ),
{
    assert(ps.push(vstd::utf8::encode_utf8(l)) =~= ls.push(l).map_values(
        |x: Seq<char>| vstd::utf8::encode_utf8(x),
    ));
}

/// The summary of a run whose steps ran on `world`: its counts, the given verdict, records and
/// notes, and the hash of the world's records, the assertion lines, the seed text and the
/// steps requested.
fn finalize_summary<F: Fn(u32) -> String, G: Fn(Option<u32>) -> String>(
    scenario: &ScenarioRequest,
    report_seed: ReportSeedInfo,
    world: &HeadlessScenarioWorld,
    assertions: Vec<ScenarioAssertionResult>,
    result: ResultEnvelope,
    notes: Option<Vec<String>>,
    scalar_text: &F,
    actual_text: &G,
) -> (r: HeadlessScenarioSummary)
    requires
        forall|b: u32| call_requires(*scalar_text, (b,)),
        forall|a: Option<u32>| call_requires(*actual_text, (a,)),
    ensures
        r.report_seed == report_seed,
        r.result == result,
        r.notes == notes,
        r.assertions == assertions,
        r.metrics == (ScenarioExecutionMetrics {
            frames_requested: scenario.fixed_steps,
            frames_simulated: world.frames(),
            simulation_rate_hz: world.rate(),
            spawned_actor_count: world.actor_views().len() as u32,
            scripted_input_count: scenario.scripted_inputs@.len() as u32,
            applied_input_count: world.applied(),
        }),
        exists|texts: Seq<String>, actuals: Seq<String>|
            {
                &&& scalar_texts_from(texts, world.tweaks(), *scalar_text)
                &&& actual_texts_from(actuals, assertions@, *actual_text)
                &&& r.determinism_hash@ == lines_hash(
                    summary_lines(
                        world_records(
                            world.frames(),
                            world.rate(),
                            world.applied(),
                            world.actor_views(),
                            world.tweaks(),
                            world.actions(),
                            world.log(),
                            texts.map_values(|t: String| t@),
                        ),
                        assertions@,
                        actuals.map_values(|t: String| t@),
                        scenario.seed.value_hex@,
                        scenario.fixed_steps,
                    ),
                )
            },
{
    let metrics = scenario_metrics(
        scenario,
        world.frames_simulated(),
        world.simulation_rate_hz(),
        world.actor_count(),
        world.applied_input_count(),
    );
    let entries = world.tweak_registry().entries();
    let texts: [String; 8] = [
        scalar_text_of(entries[0].value, scalar_text),
        scalar_text_of(entries[1].value, scalar_text),
        scalar_text_of(entries[2].value, scalar_text),
        scalar_text_of(entries[3].value, scalar_text),
        scalar_text_of(entries[4].value, scalar_text),
        scalar_text_of(entries[5].value, scalar_text),
        scalar_text_of(entries[6].value, scalar_text),
        scalar_text_of(entries[7].value, scalar_text),
    ];
    let ghost tv = texts@;
    assert(scalar_texts_from(tv, world.tweaks(), *scalar_text));
    let records = world.deterministic_records(&texts);
    let ghost wl = records@.map_values(|l: String| l@);
    let mut parts: Vec<Vec<u8>> = Vec::new();
    let mut i: usize = 0;
    while i < records.len()
        invariant
            i <= records@.len(),
            wl == records@.map_values(|l: String| l@),
            parts@.map_values(|p: Vec<u8>| p@) == wl.take(i as int).map_values(
                |l: Seq<char>| vstd::utf8::encode_utf8(l),
            ),
        decreases records@.len() - i,
    {
        let b = string_bytes(records[i].as_str());
        let ghost before = parts@.map_values(|p: Vec<u8>| p@);
        let ghost bv = b@;
        parts.push(b);
        proof {
            assert(parts@.map_values(|p: Vec<u8>| p@) =~= before.push(bv));
            assert(wl.take(i + 1) =~= wl.take(i as int).push(wl[i as int]));
            lemma_encode_push(before, wl.take(i as int), wl[i as int]);
        }
        i = i + 1;
    }
    assert(wl.take(records@.len() as int) =~= wl);
    let mut actuals: Vec<String> = Vec::new();
    let mut k: usize = 0;
    while k < assertions.len()
        invariant
            k <= assertions@.len(),
            forall|a: Option<u32>| call_requires(*actual_text, (a,)),
            actuals@.len() == k,
            forall|j: int|
                0 <= j < k ==> call_ensures(*actual_text, (assertions@[j].actual,), #[trigger] actuals@[j]),
            parts@.map_values(|p: Vec<u8>| p@) == (wl + Seq::new(
                k as nat,
                |j: int| assertion_line(assertions@[j], actuals@[j]@),
            )).map_values(|l: Seq<char>| vstd::utf8::encode_utf8(l)),
        decreases assertions@.len() - k,
    {
        let rec = &assertions[k];
        let actual = actual_text(rec.actual);
        let mut line = string_of("assert:");
        push_str(&mut line, rec.metric.as_str());
        push_str(&mut line, ":");
        push_str(&mut line, rec.comparator.as_str());
        push_str(&mut line, ":");
        push_decimal(&mut line, rec.frame as u64);
        push_str(&mut line, ":");
        push_str(&mut line, actual.as_str());
        push_str(&mut line, ":");
        push_str(&mut line, bool_text(rec.passed));
        let ghost before_actuals = actuals@;
        let ghost av = actual@;
        actuals.push(actual);
        assert(line@ == assertion_line(assertions@[k as int], actuals@[k as int]@));
        let b = string_bytes(line.as_str());
        let ghost before = parts@.map_values(|p: Vec<u8>| p@);
        let ghost bv = b@;
        parts.push(b);
        proof {
            let prev = Seq::new(k as nat, |j: int| assertion_line(assertions@[j], before_actuals[j]@));
            let cur = Seq::new((k + 1) as nat, |j: int| assertion_line(assertions@[j], actuals@[j]@));
            assert(prev =~= Seq::new(k as nat, |j: int| assertion_line(assertions@[j], actuals@[j]@)));
            assert(cur =~= prev.push(line@));
            assert(wl + cur =~= (wl + prev).push(line@));
            assert(parts@.map_values(|p: Vec<u8>| p@) =~= before.push(bv));
            lemma_encode_push(before, wl + prev, line@);
        }
        k = k + 1;
    }
    let mut seed_line = string_of("seed=");
    push_str(&mut seed_line, scenario.seed.value_hex.as_str());
    let mut steps_line = string_of("requested_steps=");
    push_decimal(&mut steps_line, scenario.fixed_steps as u64);
    let ghost mid = wl + Seq::new(
        assertions@.len(),
        |j: int| assertion_line(assertions@[j], actuals@[j]@),
    );
    let sb = string_bytes(seed_line.as_str());
    let ghost p0 = parts@.map_values(|p: Vec<u8>| p@);
    let ghost sbv = sb@;
    parts.push(sb);
    proof {
        assert(parts@.map_values(|p: Vec<u8>| p@) =~= p0.push(sbv));
        lemma_encode_push(p0, mid, seed_line@);
    }
    let tb = string_bytes(steps_line.as_str());
    let ghost p1 = parts@.map_values(|p: Vec<u8>| p@);
    let ghost tbv = tb@;
    parts.push(tb);
    proof {
        assert(parts@.map_values(|p: Vec<u8>| p@) =~= p1.push(tbv));
        lemma_encode_push(p1, mid.push(seed_line@), steps_line@);
        assert(mid.push(seed_line@).push(steps_line@) =~= mid + seq![seed_line@, steps_line@]);
    }
    let ghost lines = summary_lines(
        wl,
        assertions@,
        actuals@.map_values(|t: String| t@),
        scenario.seed.value_hex@,
        scenario.fixed_steps,
    );
    assert(Seq::new(assertions@.len(), |j: int| assertion_line(assertions@[j], actuals@[j]@))
        =~= Seq::new(
        assertions@.len(),
        |j: int| assertion_line(assertions@[j], actuals@.map_values(|t: String| t@)[j]),
    ));
    assert(parts@.map_values(|p: Vec<u8>| p@) =~= lines.map_values(
        |l: Seq<char>| vstd::utf8::encode_utf8(l),
    ));
    let determinism_hash = stable_hash_hex(parts.as_slice());
    assert(actual_texts_from(actuals@, assertions@, *actual_text));
    HeadlessScenarioSummary { report_seed, result, metrics, assertions, determinism_hash, notes }
}


/// The scripted inputs of a scenario by their parts: frame, action and state.
pub open spec fn input_views(scenario: ScenarioRequest) -> Seq<InputView> {
    scenario.scripted_inputs@.map_values(|i: ScriptedInput| (i.frame, i.action@, i.state@))
}

/// The inputs scripted for frame `f`, in order.
pub open spec fn inputs_at(views: Seq<InputView>, f: u32) -> Seq<InputView> {
    views.filter(|v: InputView| v.0 == f)
}

/// The record of a spawned actor of the scenario under `root`, as the world spawns it.
pub open spec fn spawn_view(root: u64, a: ScenarioActorSpawn) -> ActorView {
    let label = match a.seed_stream {
        Some(stream) => stream@,
        None => a.actor_id@,
    };
    (a.actor_id@, a.actor_kind@, optional_chars(a.seed_stream), hex_text(stream_seed(root, label)))
}

/// The scenario's actors under `root`, ordered by id as the world holds them.
pub open spec fn scenario_actors(scenario: ScenarioRequest, root: u64) -> Seq<ActorView> {
    sort_by_id(scenario.spawned_actors@.map_values(|a: ScenarioActorSpawn| spawn_view(root, a)))
}

/// The tweaks a run starts from: the pack applied to a fresh registry, or the fresh registry.
pub open spec fn start_tweaks(pack: Option<&TweakPack>) -> RegistryState {
    match pack {
        Some(p) => apply_entries(default_registry_state(), p.entries@).0,
        None => default_registry_state(),
    }
}

/// The input state a run starts from: nothing applied or held, and the pack's log line if a
/// pack was applied.
pub open spec fn start_inputs(pack: Option<&TweakPack>) -> InputState {
    match pack {
        Some(p) => (0nat, Seq::empty(), seq![tweaks_applied_line(p.entries@.len(), start_tweaks(pack))]),
        None => (0nat, Seq::empty(), Seq::empty()),
    }
}

/// The input state after `k` fixed steps: each step applies the inputs scripted for its frame
/// and logs the step.
pub open spec fn run_steps(st0: InputState, views: Seq<InputView>, rate: u32, k: nat) -> InputState
    decreases k,
{
    if k == 0 {
        st0
    } else {
        let prev = run_steps(st0, views, rate, (k - 1) as nat);
        let st = apply_inputs(prev, (k - 1) as u32, inputs_at(views, (k - 1) as u32));
        (st.0, st.1, st.2.push(step_line((k - 1) as u32, k, rate, st.1.len())))
    }
}

/// The records of the world after `k` steps of the scenario.
pub open spec fn run_world_records(
    scenario: ScenarioRequest,
    root: u64,
    pack: Option<&TweakPack>,
    k: u32,
    texts: Seq<Seq<char>>,
) -> Seq<Seq<char>> {
    let st = run_steps(start_inputs(pack), input_views(scenario), scenario.simulation_rate_hz, k as nat);
    world_records(
        k,
        scenario.simulation_rate_hz,
        st.0 as u32,
        scenario_actors(scenario, root),
        start_tweaks(pack),
        st.1,
        st.2,
        texts,
    )
}

fn scripted_inputs_at(scenario: &ScenarioRequest, frame: u32) -> (r: Vec<HeadlessScriptedInput>)
    ensures
        r@.map_values(|i: HeadlessScriptedInput| i@) == inputs_at(input_views(*scenario), frame),
        r@.len() == count_at(input_frames(*scenario), frame),
{
    let ghost views = input_views(*scenario);
    let ghost frames = input_frames(*scenario);
    let mut r: Vec<HeadlessScriptedInput> = Vec::new();
    let mut i: usize = 0;
    while i < scenario.scripted_inputs.len()
        invariant
            i <= scenario.scripted_inputs@.len(),
            views == input_views(*scenario),
            frames == input_frames(*scenario),
            r@.map_values(|x: HeadlessScriptedInput| x@) == inputs_at(views.take(i as int), frame),
            r@.len() == count_at(frames.take(i as int), frame),
        decreases scenario.scripted_inputs@.len() - i,
    {
        let input = &scenario.scripted_inputs[i];
        proof {
            assert(views.take(i + 1).drop_last() =~= views.take(i as int));
            assert(views.take(i + 1).last() == views[i as int]);
            assert(frames.take(i + 1).drop_last() =~= frames.take(i as int));
            assert(frames.take(i + 1).last() == frames[i as int]);
            reveal(Seq::filter);
        }
        let ghost before = r@.map_values(|x: HeadlessScriptedInput| x@);
        if input.frame == frame {
            let item = HeadlessScriptedInput {
                frame: input.frame,
                action: input.action.clone(),
                state: input.state.clone(),
            };
            let ghost iv = item@;
            r.push(item);
            assert(r@.map_values(|x: HeadlessScriptedInput| x@) =~= before.push(iv));
        }
        i = i + 1;
    }
    assert(views.take(scenario.scripted_inputs@.len() as int) =~= views);
    assert(frames.take(scenario.scripted_inputs@.len() as int) =~= frames);
    r
}

fn actor_spawns(scenario: &ScenarioRequest) -> (r: Vec<HeadlessActorSpawn>)
    ensures
        forall|root: u64|
            #![trigger scenario_actors(*scenario, root)]
            r@.map_values(|a: HeadlessActorSpawn| crate::wr_ecs::actor_view(root, a))
                == scenario.spawned_actors@.map_values(
                |a: ScenarioActorSpawn| spawn_view(root, a),
            ),
{
    let mut r: Vec<HeadlessActorSpawn> = Vec::new();
    let mut i: usize = 0;
    while i < scenario.spawned_actors.len()
        invariant
            i <= scenario.spawned_actors@.len(),
            r@.len() == i,
            forall|j: int|
                0 <= j < i ==> {
                    &&& (#[trigger] r@[j]).actor_id@ == scenario.spawned_actors@[j].actor_id@
                    &&& r@[j].actor_kind@ == scenario.spawned_actors@[j].actor_kind@
                    &&& optional_chars(r@[j].seed_stream) == optional_chars(
                        scenario.spawned_actors@[j].seed_stream,
                    )
                },
        decreases scenario.spawned_actors@.len() - i,
    {
        let a = &scenario.spawned_actors[i];
        r.push(
            HeadlessActorSpawn {
                actor_id: a.actor_id.clone(),
                actor_kind: a.actor_kind.clone(),
                seed_stream: clone_optional(&a.seed_stream),
            },
        );
        i = i + 1;
    }
    assert forall|root: u64|
        #![trigger scenario_actors(*scenario, root)]
        r@.map_values(|a: HeadlessActorSpawn| crate::wr_ecs::actor_view(root, a))
            == scenario.spawned_actors@.map_values(|a: ScenarioActorSpawn| spawn_view(root, a)) by {
        assert(r@.map_values(|a: HeadlessActorSpawn| crate::wr_ecs::actor_view(root, a))
            =~= scenario.spawned_actors@.map_values(|a: ScenarioActorSpawn| spawn_view(root, a)));
    }
    r
}

/// The outcome of checking `a` at `frame` on `world`: the judge's verdict on the metric's value,
/// or a failure when the world has no such metric.
fn evaluate_assertion<J: Fn(MetricReading, &ScenarioAssertion, u32) -> ScenarioAssertionResult>(
    world: &HeadlessScenarioWorld,
    a: &ScenarioAssertion,
    frame: u32,
    judge: &J,
) -> (r: ScenarioAssertionResult)
    requires
        forall|m: MetricReading, x: &ScenarioAssertion, f: u32| call_requires(*judge, (m, x, f)),
    ensures
        is_verdict(*judge, world.metric_spec(a.metric@), *a, frame, r),
{
    match world.metric_value(a.metric.as_str()) {
        Some(reading) => judge(reading, a, frame),
        None => {
            let mut d = string_of("metric `");
            push_str(&mut d, a.metric.as_str());
            push_str(&mut d, "` is not available");
            ScenarioAssertionResult {
                metric: a.metric.clone(),
                comparator: a.comparator.clone(),
                frame,
                expected: a.expected,
                actual: None,
                tolerance: a.tolerance,
                passed: false,
                details: Some(d),
            }
        },
    }
}

/// The message of a failed assertion record: its own details, or a default naming `metric`.
pub open spec fn failure_text(r: ScenarioAssertionResult, metric: Seq<char>) -> Seq<char> {
    match r.details {
        Some(x) => x@,
        None => "assertion `"@ + metric + "` failed without a detailed message"@,
    }
}

fn failure_details(r: &ScenarioAssertionResult, metric: &str) -> (d: String)
    ensures
        d@ == failure_text(*r, metric@),
{
    match &r.details {
        Some(x) => x.clone(),
        None => {
            let mut d = string_of("assertion `");
            push_str(&mut d, metric);
            push_str(&mut d, "` failed without a detailed message");
            d
        },
    }
}


fn step_summary_text(prefix: &str, n: u32, suffix: &str) -> (r: String)
    ensures
        r@ == prefix@ + decimal(n as nat) + suffix@,
{
    let mut r = string_of(prefix);
    push_decimal(&mut r, n as u64);
    push_str(&mut r, suffix);
    r
}

/// Runs the fixed steps of a scenario on `world`, checking the assertions due at each frame in
/// order, until the steps are done or an assertion fails. Gives the outcomes, one for each of
/// the scenario's framed checks in order as far as the run went, and, on a failure, the frame
/// and the failure's message.
#[verifier::loop_isolation(false)]
fn run_frames<J: Fn(MetricReading, &ScenarioAssertion, u32) -> ScenarioAssertionResult>(
    world: &mut HeadlessScenarioWorld,
    scenario: &ScenarioRequest,
    judge: &J,
) -> (r: (Vec<ScenarioAssertionResult>, Option<(u32, String)>))
    requires
        old(world).frames() == 0,
        old(world).applied() == 0,
        old(world).rate() == scenario.simulation_rate_hz,
        old(world).pending() == Seq::<InputView>::empty(),
        scenario.scripted_inputs@.len() <= u32::MAX,
        forall|m: MetricReading, x: &ScenarioAssertion, f: u32| call_requires(*judge, (m, x, f)),
    ensures
        final(world).frames() <= scenario.fixed_steps,
        final(world).input_state() == run_steps(
            old(world).input_state(),
            input_views(*scenario),
            scenario.simulation_rate_hz,
            final(world).frames() as nat,
        ),
        final(world).rate() == old(world).rate(),
        final(world).tweaks() == old(world).tweaks(),
        final(world).actor_views() == old(world).actor_views(),
        final(world).pending() == Seq::<InputView>::empty(),
        forall|k: int| 0 <= k < r.0@.len() - 1 ==> (#[trigger] r.0@[k]).passed,
        r.0@.len() <= framed_checks(assertion_frames(*scenario), scenario.fixed_steps as nat).len(),
        forall|k: int|
            0 <= k < r.0@.len() ==> {
                let c = framed_checks(assertion_frames(*scenario), scenario.fixed_steps as nat)[k];
                is_verdict(
                    *judge,
                    reading_after(
                        old(world).actor_views(),
                        old(world).tweaks(),
                        old(world).input_state(),
                        input_views(*scenario),
                        scenario.simulation_rate_hz,
                        c.2,
                        scenario.assertions@[c.0].metric@,
                    ),
                    scenario.assertions@[c.0],
                    c.1,
                    #[trigger] r.0@[k],
                )
            },
        match r.1 {
            None => final(world).frames() == scenario.fixed_steps && r.0@.len() == framed_checks(
                assertion_frames(*scenario),
                scenario.fixed_steps as nat,
            ).len() && forall|k: int| 0 <= k < r.0@.len() ==> (#[trigger] r.0@[k]).passed,
            Some((f, d)) => {
                let c = framed_checks(assertion_frames(*scenario), scenario.fixed_steps as nat)[r.0@.len() - 1];
                &&& r.0@.len() > 0
                &&& !r.0@.last().passed
                &&& f == c.1
                &&& final(world).frames() == c.2
                &&& d@ == failure_text(r.0@.last(), scenario.assertions@[c.0].metric@)
            },
        },
{
    let ghost views = input_views(*scenario);
    let ghost infr = input_frames(*scenario);
    let ghost afr = assertion_frames(*scenario);
    let ghost rate = scenario.simulation_rate_hz;
    let ghost st0 = world.input_state();
    let ghost actors0 = world.actor_views();
    let ghost tweaks0 = world.tweaks();
    let ghost full = framed_checks(afr, scenario.fixed_steps as nat);
    let mut records: Vec<ScenarioAssertionResult> = Vec::new();
    let mut frame: u32 = 0;
    proof {
        lemma_count_below_zero(infr);
    }
    while frame < scenario.fixed_steps
        invariant
            frame <= scenario.fixed_steps,
            world.frames() == frame,
            world.rate() == rate,
            world.pending() == Seq::<InputView>::empty(),
            world.tweaks() == tweaks0,
            world.actor_views() == actors0,
            world.input_state() == run_steps(st0, views, rate, frame as nat),
            world.applied() <= count_below(infr, frame as int),
            records@.len() == framed_checks(afr, frame as nat).len(),
            forall|k: int| 0 <= k < records@.len() ==> (#[trigger] records@[k]).passed,
            forall|k: int|
                0 <= k < records@.len() ==> is_verdict(
                    *judge,
                    reading_after(actors0, tweaks0, st0, views, rate, full[k].2, scenario.assertions@[full[k].0].metric@),
                    scenario.assertions@[full[k].0],
                    full[k].1,
                    #[trigger] records@[k],
                ),
        decreases scenario.fixed_steps - frame,
    {
        let batch = scripted_inputs_at(scenario, frame);
        world.apply_inputs(batch.as_slice());
        proof {
            lemma_count_below_step(infr, frame);
            assert(world.pending() =~= inputs_at(views, frame));
            lemma_apply_inputs_bound(world.input_state(), frame, inputs_at(views, frame));
        }
        world.step(frame);
        let ghost done = framed_checks(afr, frame as nat);
        let ghost next = framed_checks(afr, (frame + 1) as nat);
        proof {
            assert(next == done + due_entries(afr, Some(frame), frame, (frame + 1) as u32));
            lemma_framed_checks_prefix(afr, (frame + 1) as nat, scenario.fixed_steps as nat);
        }
        let mut j: usize = 0;
        proof {
            assert(afr.take(0) =~= Seq::<Option<u32>>::empty());
            assert(done + due_entries(afr.take(0), Some(frame), frame, (frame + 1) as u32) =~= done);
        }
        while j < scenario.assertions.len()
            invariant
                j <= scenario.assertions@.len(),
                world.frames() == frame + 1,
                records@.len() == done.len() + due_entries(afr.take(j as int), Some(frame), frame, (frame + 1) as u32).len(),
                forall|k: int| 0 <= k < records@.len() ==> (#[trigger] records@[k]).passed,
                forall|k: int|
                    0 <= k < records@.len() ==> is_verdict(
                        *judge,
                        reading_after(actors0, tweaks0, st0, views, rate, full[k].2, scenario.assertions@[full[k].0].metric@),
                        scenario.assertions@[full[k].0],
                        full[k].1,
                        #[trigger] records@[k],
                    ),
            decreases scenario.assertions@.len() - j,
        {
            let a = &scenario.assertions[j];
            let ghost before = due_entries(afr.take(j as int), Some(frame), frame, (frame + 1) as u32);
            let ghost after = due_entries(afr.take(j + 1), Some(frame), frame, (frame + 1) as u32);
            proof {
                assert(afr.take(j + 1).drop_last() =~= afr.take(j as int));
                assert(afr.take(j + 1).last() == afr[j as int]);
                lemma_due_entries_prefix(afr, Some(frame), frame, (frame + 1) as u32, j + 1);
                lemma_starts_after(done, after, due_entries(afr, Some(frame), frame, (frame + 1) as u32), full);
            }
            let due = match a.frame {
                Some(f) => f == frame,
                None => false,
            };
            if due {
                let rec = evaluate_assertion(world, a, frame, judge);
                proof {
                    let at = records@.len() as int;
                    assert(after == before.push((j as int, frame, (frame + 1) as u32)));
                    assert((done + after)[at] == (j as int, frame, (frame + 1) as u32));
                    assert(full[at] == (done + after)[at]);
                }
                if !rec.passed {
                    let details = failure_details(&rec, a.metric.as_str());
                    records.push(rec);
                    return (records, Some((frame, details)));
                }
                records.push(rec);
            }
            j = j + 1;
        }
        proof {
            assert(afr.take(scenario.assertions@.len() as int) =~= afr);
        }
        frame = frame + 1;
    }
    (records, None)
}

/// Checks the assertions without a frame on the finished `world`, in order, at its last frame,
/// appending their outcomes, until one fails; gives that failure's message.
#[verifier::loop_isolation(false)]
fn run_final_assertions<J: Fn(MetricReading, &ScenarioAssertion, u32) -> ScenarioAssertionResult>(
    world: &HeadlessScenarioWorld,
    scenario: &ScenarioRequest,
    judge: &J,
    records: &mut Vec<ScenarioAssertionResult>,
) -> (r: Option<String>)
    requires
        forall|m: MetricReading, x: &ScenarioAssertion, f: u32| call_requires(*judge, (m, x, f)),
        forall|k: int| 0 <= k < old(records)@.len() ==> (#[trigger] old(records)@[k]).passed,
    ensures
        final(records)@.len() >= old(records)@.len(),
        final(records)@.take(old(records)@.len() as int) == old(records)@,
        forall|k: int| 0 <= k < final(records)@.len() - 1 ==> (#[trigger] final(records)@[k]).passed,
        final(records)@.len() - old(records)@.len() <= due_entries(
            assertion_frames(*scenario),
            None,
            last_frame(world.frames()),
            world.frames(),
        ).len(),
        forall|k: int|
            old(records)@.len() <= k < final(records)@.len() ==> {
                let c = due_entries(
                    assertion_frames(*scenario),
                    None,
                    last_frame(world.frames()),
                    world.frames(),
                )[k - old(records)@.len()];
                is_verdict(
                    *judge,
                    world.metric_spec(scenario.assertions@[c.0].metric@),
                    scenario.assertions@[c.0],
                    c.1,
                    #[trigger] final(records)@[k],
                )
            },
        match r {
            None => final(records)@.len() == old(records)@.len() + due_entries(
                assertion_frames(*scenario),
                None,
                last_frame(world.frames()),
                world.frames(),
            ).len() && forall|k: int|
                0 <= k < final(records)@.len() ==> (#[trigger] final(records)@[k]).passed,
            Some(d) => {
                let c = due_entries(
                    assertion_frames(*scenario),
                    None,
                    last_frame(world.frames()),
                    world.frames(),
                )[final(records)@.len() - 1 - old(records)@.len()];
                &&& final(records)@.len() > old(records)@.len()
                &&& !final(records)@.last().passed
                &&& d@ == failure_text(final(records)@.last(), scenario.assertions@[c.0].metric@)
            },
        },
{
    let ghost afr = assertion_frames(*scenario);
    let ghost r0 = records@;
    let simulated = world.frames_simulated();
    let last_frame = if simulated > 0 {
        simulated - 1
    } else {
        0
    };
    let ghost full = due_entries(afr, None, last_frame, simulated);
    let mut j: usize = 0;
    assert(afr.take(0) =~= Seq::<Option<u32>>::empty());
    assert(records@.take(r0.len() as int) =~= r0);
    while j < scenario.assertions.len()
        invariant
            j <= scenario.assertions@.len(),
            records@.len() == r0.len() + due_entries(afr.take(j as int), None, last_frame, simulated).len(),
            records@.take(r0.len() as int) == r0,
            forall|k: int| 0 <= k < records@.len() ==> (#[trigger] records@[k]).passed,
            forall|k: int|
                r0.len() <= k < records@.len() ==> is_verdict(
                    *judge,
                    world.metric_spec(scenario.assertions@[full[k - r0.len()].0].metric@),
                    scenario.assertions@[full[k - r0.len()].0],
                    full[k - r0.len()].1,
                    #[trigger] records@[k],
                ),
        decreases scenario.assertions@.len() - j,
    {
        let a = &scenario.assertions[j];
        let ghost before = due_entries(afr.take(j as int), None, last_frame, simulated);
        let ghost after = due_entries(afr.take(j + 1), None, last_frame, simulated);
        proof {
            assert(afr.take(j + 1).drop_last() =~= afr.take(j as int));
            assert(afr.take(j + 1).last() == afr[j as int]);
            lemma_due_entries_prefix(afr, None, last_frame, simulated, j + 1);
        }
        if a.frame.is_none() {
            let rec = evaluate_assertion(world, a, last_frame, judge);
            proof {
                assert(after == before.push((j as int, last_frame, simulated)));
                assert(full[before.len() as int] == after[before.len() as int]);
            }
            let failed = !rec.passed;
            let details = if failed {
                failure_details(&rec, a.metric.as_str())
            } else {
                String::new()
            };
            let ghost prev = records@;
            records.push(rec);
            assert(records@.take(r0.len() as int) =~= prev.take(r0.len() as int));
            assert forall|k: int| r0.len() <= k < records@.len() implies is_verdict(
                *judge,
                world.metric_spec(scenario.assertions@[full[k - r0.len()].0].metric@),
                scenario.assertions@[full[k - r0.len()].0],
                full[k - r0.len()].1,
                #[trigger] records@[k],
            ) by {
                if k < prev.len() {
                    assert(records@[k] == prev[k]);
                }
            }
            if failed {
                return Some(details);
            }
        }
        j = j + 1;
    }
    assert(afr.take(scenario.assertions@.len() as int) =~= afr);
    None
}

/// The hash a finished run gives, restated over the run's model: what `finalize_summary` says of
/// the world it ran on, for a world that ran the scenario's steps from its start.
proof fn lemma_run_hash<F: Fn(u32) -> String, G: Fn(Option<u32>) -> String>(
    r: HeadlessScenarioSummary,
    world: HeadlessScenarioWorld,
    scenario: ScenarioRequest,
    root: u64,
    pack: Option<&TweakPack>,
    scalar_text: F,
    actual_text: G,
)
    requires
        r.metrics.frames_simulated == world.frames(),
        world.rate() == scenario.simulation_rate_hz,
        world.tweaks() == start_tweaks(pack),
        world.actor_views() == scenario_actors(scenario, root),
        world.input_state() == run_steps(
            start_inputs(pack),
            input_views(scenario),
            scenario.simulation_rate_hz,
            world.frames() as nat,
        ),
        exists|texts: Seq<String>, actuals: Seq<String>|
            {
                &&& scalar_texts_from(texts, world.tweaks(), scalar_text)
                &&& actual_texts_from(actuals, r.assertions@, actual_text)
                &&& r.determinism_hash@ == lines_hash(
                    summary_lines(
                        world_records(
                            world.frames(),
                            world.rate(),
                            world.applied(),
                            world.actor_views(),
                            world.tweaks(),
                            world.actions(),
                            world.log(),
                            texts.map_values(|t: String| t@),
                        ),
                        r.assertions@,
                        actuals.map_values(|t: String| t@),
                        scenario.seed.value_hex@,
                        scenario.fixed_steps,
                    ),
                )
            },
    ensures
        exists|texts: Seq<String>, actuals: Seq<String>|
            {
                &&& scalar_texts_from(texts, start_tweaks(pack), scalar_text)
                &&& actual_texts_from(actuals, r.assertions@, actual_text)
                &&& r.determinism_hash@ == lines_hash(
                    summary_lines(
                        run_world_records(
                            scenario,
                            root,
                            pack,
                            r.metrics.frames_simulated,
                            texts.map_values(|t: String| t@),
                        ),
                        r.assertions@,
                        actuals.map_values(|t: String| t@),
                        scenario.seed.value_hex@,
                        scenario.fixed_steps,
                    ),
                )
            },
{
    let (texts, actuals) = choose|texts: Seq<String>, actuals: Seq<String>|
        {
            &&& scalar_texts_from(texts, world.tweaks(), scalar_text)
            &&& actual_texts_from(actuals, r.assertions@, actual_text)
            &&& r.determinism_hash@ == lines_hash(
                summary_lines(
                    world_records(
                        world.frames(),
                        world.rate(),
                        world.applied(),
                        world.actor_views(),
                        world.tweaks(),
                        world.actions(),
                        world.log(),
                        texts.map_values(|t: String| t@),
                    ),
                    r.assertions@,
                    actuals.map_values(|t: String| t@),
                    scenario.seed.value_hex@,
                    scenario.fixed_steps,
                ),
            )
        };
    assert(run_world_records(
        scenario,
        root,
        pack,
        r.metrics.frames_simulated,
        texts.map_values(|t: String| t@),
    ) == world_records(
        world.frames(),
        world.rate(),
        world.applied(),
        world.actor_views(),
        world.tweaks(),
        world.actions(),
        world.log(),
        texts.map_values(|t: String| t@),
    ));
}

/// The framed checks' records, restated over the run's model: each is the verdict on the
/// scenario's metric after the steps of its check.
proof fn lemma_framed_verdicts<J: Fn(MetricReading, &ScenarioAssertion, u32) -> ScenarioAssertionResult>(
    judge: J,
    scenario: ScenarioRequest,
    root: u64,
    pack: Option<&TweakPack>,
    w0: HeadlessScenarioWorld,
    recs: Seq<ScenarioAssertionResult>,
)
    requires
        w0.actor_views() == scenario_actors(scenario, root),
        w0.tweaks() == start_tweaks(pack),
        w0.input_state() == start_inputs(pack),
        recs.len() <= framed_checks(assertion_frames(scenario), scenario.fixed_steps as nat).len(),
        forall|k: int|
            0 <= k < recs.len() ==> {
                let c = framed_checks(assertion_frames(scenario), scenario.fixed_steps as nat)[k];
                is_verdict(
                    judge,
                    reading_after(
                        w0.actor_views(),
                        w0.tweaks(),
                        w0.input_state(),
                        input_views(scenario),
                        scenario.simulation_rate_hz,
                        c.2,
                        scenario.assertions@[c.0].metric@,
                    ),
                    scenario.assertions@[c.0],
                    c.1,
                    #[trigger] recs[k],
                )
            },
    ensures
        are_run_verdicts(judge, scenario, root, pack, recs),
{
    let framed = framed_checks(assertion_frames(scenario), scenario.fixed_steps as nat);
    let plan = run_checks(scenario);
    assert forall|k: int| 0 <= k < recs.len() implies {
        let c = plan[k];
        is_verdict(
            judge,
            scenario_reading(scenario, root, pack, c.2, scenario.assertions@[c.0].metric@),
            scenario.assertions@[c.0],
            c.1,
            #[trigger] recs[k],
        )
    } by {
        assert(plan[k] == framed[k]);
    }
}

/// The records of a run that went through all its steps, restated over the run's model: the
/// framed checks' records, then those of the checks without a frame, each the verdict on the
/// scenario's metric after the steps of its check.
proof fn lemma_run_verdicts<J: Fn(MetricReading, &ScenarioAssertion, u32) -> ScenarioAssertionResult>(
    judge: J,
    scenario: ScenarioRequest,
    root: u64,
    pack: Option<&TweakPack>,
    w0: HeadlessScenarioWorld,
    world: HeadlessScenarioWorld,
    framed_recs: Seq<ScenarioAssertionResult>,
    recs: Seq<ScenarioAssertionResult>,
)
    requires
        w0.actor_views() == scenario_actors(scenario, root),
        w0.tweaks() == start_tweaks(pack),
        w0.input_state() == start_inputs(pack),
        world.frames() == scenario.fixed_steps,
        world.actor_views() == w0.actor_views(),
        world.tweaks() == w0.tweaks(),
        world.input_state() == run_steps(
            w0.input_state(),
            input_views(scenario),
            scenario.simulation_rate_hz,
            world.frames() as nat,
        ),
        framed_recs.len() == framed_checks(assertion_frames(scenario), scenario.fixed_steps as nat).len(),
        forall|k: int|
            0 <= k < framed_recs.len() ==> {
                let c = framed_checks(assertion_frames(scenario), scenario.fixed_steps as nat)[k];
                is_verdict(
                    judge,
                    reading_after(
                        w0.actor_views(),
                        w0.tweaks(),
                        w0.input_state(),
                        input_views(scenario),
                        scenario.simulation_rate_hz,
                        c.2,
                        scenario.assertions@[c.0].metric@,
                    ),
                    scenario.assertions@[c.0],
                    c.1,
                    #[trigger] framed_recs[k],
                )
            },
        recs.len() >= framed_recs.len(),
        recs.take(framed_recs.len() as int) == framed_recs,
        recs.len() - framed_recs.len() <= due_entries(
            assertion_frames(scenario),
            None,
            last_frame(world.frames()),
            world.frames(),
        ).len(),
        forall|k: int|
            framed_recs.len() <= k < recs.len() ==> {
                let c = due_entries(
                    assertion_frames(scenario),
                    None,
                    last_frame(world.frames()),
                    world.frames(),
                )[k - framed_recs.len()];
                is_verdict(
                    judge,
                    world.metric_spec(scenario.assertions@[c.0].metric@),
                    scenario.assertions@[c.0],
                    c.1,
                    #[trigger] recs[k],
                )
            },
    ensures
        are_run_verdicts(judge, scenario, root, pack, recs),
{
    lemma_framed_verdicts(judge, scenario, root, pack, w0, framed_recs);
    lemma_due_entries_fields(assertion_frames(scenario), None, last_frame(world.frames()), world.frames());
    let u = due_entries(assertion_frames(scenario), None, last_frame(world.frames()), world.frames());
    let plan = run_checks(scenario);
    let n = framed_recs.len() as int;
    assert forall|k: int| 0 <= k < recs.len() implies {
        let c = plan[k];
        is_verdict(
            judge,
            scenario_reading(scenario, root, pack, c.2, scenario.assertions@[c.0].metric@),
            scenario.assertions@[c.0],
            c.1,
            #[trigger] recs[k],
        )
    } by {
        if k < n {
            assert(recs.take(n)[k] == recs[k]);
            assert(framed_recs[k] == recs[k]);
        } else {
            assert(plan[k] == u[k - n]);
            assert(u[k - n].2 == world.frames());
        }
    }
}

/// The report of a run that passed.
proof fn lemma_passed_report(r: HeadlessScenarioSummary, scenario: ScenarioRequest)
    requires
        r.result.status == HarnessStatus::Passed,
        r.result.summary@ == "Scenario completed "@ + decimal(scenario.fixed_steps as nat)
            + " fixed steps without assertion failures."@,
        r.result.details is None,
        r.notes matches Some(n) && n@.len() == 1
            && n@[0]@ == "Headless execution uses the ECS schedule spine."@,
    ensures
        is_run_report(r, scenario),
{
    reveal(is_run_report);
}

/// The report of a run stopped by a framed check: the last record's check is that frame's.
proof fn lemma_stopped_in_frames(r: HeadlessScenarioSummary, scenario: ScenarioRequest, frame: u32)
    requires
        r.result.status == HarnessStatus::Failed,
        0 < r.assertions@.len() <= framed_checks(
            assertion_frames(scenario),
            scenario.fixed_steps as nat,
        ).len(),
        ({
            let c = framed_checks(assertion_frames(scenario), scenario.fixed_steps as nat)[r.assertions@.len() - 1];
            &&& frame == c.1
            &&& r.metrics.frames_simulated == c.2
            &&& r.result.details matches Some(d) && d@ == failure_text(
                r.assertions@.last(),
                scenario.assertions@[c.0].metric@,
            )
        }),
        r.result.summary@ == "Scenario failed on frame "@ + decimal(frame as nat) + " after "@
            + decimal(r.metrics.frames_simulated as nat) + " simulated steps."@,
        r.notes matches Some(n) && n@.len() == 1
            && n@[0]@ == "Execution stopped at the first failing assertion."@,
    ensures
        is_run_report(r, scenario),
{
    reveal(is_run_report);
    let afr = assertion_frames(scenario);
    let framed = framed_checks(afr, scenario.fixed_steps as nat);
    let k = r.assertions@.len() - 1;
    lemma_framed_checks_fields(afr, scenario.fixed_steps as nat);
    assert(run_checks(scenario)[k] == framed[k]);
    assert(afr[framed[k].0] == scenario.assertions@[framed[k].0].frame);
}

/// The report of a run stopped by a check without a frame, after all its steps.
proof fn lemma_stopped_after_frames(r: HeadlessScenarioSummary, scenario: ScenarioRequest)
    requires
        r.result.status == HarnessStatus::Failed,
        ({
            let afr = assertion_frames(scenario);
            let framed = framed_checks(afr, scenario.fixed_steps as nat);
            let u = due_entries(afr, None, last_frame(scenario.fixed_steps), scenario.fixed_steps);
            let c = u[r.assertions@.len() - 1 - framed.len()];
            &&& framed.len() < r.assertions@.len() <= framed.len() + u.len()
            &&& r.metrics.frames_simulated == scenario.fixed_steps
            &&& r.result.details matches Some(d) && d@ == failure_text(
                r.assertions@.last(),
                scenario.assertions@[c.0].metric@,
            )
        }),
        r.result.summary@ == "Scenario failed after "@ + decimal(scenario.fixed_steps as nat)
            + " simulated steps."@,
        r.notes matches Some(n) && n@.len() == 1
            && n@[0]@ == "Execution stopped at the first failing assertion."@,
    ensures
        is_run_report(r, scenario),
{
    reveal(is_run_report);
    let afr = assertion_frames(scenario);
    let framed = framed_checks(afr, scenario.fixed_steps as nat);
    let u = due_entries(afr, None, last_frame(scenario.fixed_steps), scenario.fixed_steps);
    let k = r.assertions@.len() - 1;
    lemma_due_entries_fields(afr, None, last_frame(scenario.fixed_steps), scenario.fixed_steps);
    assert(run_checks(scenario)[k] == u[k - framed.len()]);
    assert(afr[u[k - framed.len()].0] == scenario.assertions@[u[k - framed.len()].0].frame);
}

/// Runs a scenario headless: parses its seed, builds the report's seed from the standard seed
/// graph under the given pack (or the default one), spawns the world, applies the tweak pack,
/// then runs the fixed steps, feeding each frame its scripted inputs and checking the
/// assertions due at that frame, and at the end those without a frame. The first failing
/// assertion stops the run. `judge` compares a metric's value with an assertion (the
/// single-precision comparison and its message); `scalar_text` writes a scalar tweak as
/// `{:.6}` does and `actual_text` an actual value as `{:?}` does, for the determinism hash.
/// Each record returned is, in the order of `run_checks`, what `judge` gave on the metric's
/// value after the steps of that check (or the failure for a metric the world lacks); what
/// `judge` itself decides is its own contract's business.
#[verifier::loop_isolation(false)]
#[verifier::spinoff_prover]
#[verifier::rlimit(100)]
pub fn run_headless_scenario_with_config_packs<J, F, G>(
    scenario: &ScenarioRequest,
    seed_config_pack: Option<&SeedConfigPack>,
    tweak_pack: Option<&TweakPack>,
    judge: J,
    scalar_text: F,
    actual_text: G,
) -> (r: HeadlessScenarioSummary) where
    J: Fn(MetricReading, &ScenarioAssertion, u32) -> ScenarioAssertionResult,
    F: Fn(u32) -> String,
    G: Fn(Option<u32>) -> String,

    requires
        pack_builds(seed_config_pack),
        scenario.scripted_inputs@.len() <= u32::MAX,
        forall|m: MetricReading, x: &ScenarioAssertion, f: u32| call_requires(judge, (m, x, f)),
        forall|b: u32| call_requires(scalar_text, (b,)),
        forall|a: Option<u32>| call_requires(actual_text, (a,)),
    ensures
        r.metrics.frames_requested == scenario.fixed_steps,
        forall|k: int| 0 <= k < r.assertions@.len() - 1 ==> (#[trigger] r.assertions@[k]).passed,
        (r.result.status == HarnessStatus::Passed) == (parse_seed_hex(
            scenario.seed.value_hex@,
        ) is Some && tweak_pack_applies(tweak_pack) && forall|k: int|
            0 <= k < r.assertions@.len() ==> (#[trigger] r.assertions@[k]).passed),
        r.result.status == HarnessStatus::Passed || r.result.status == HarnessStatus::Failed,
        (r.result.status == HarnessStatus::Failed) <==> r.result.failure_kind == Some(
            FailureKind::ScenarioFailed,
        ),
        r.result.status == HarnessStatus::Passed ==> r.result.failure_kind is None,
        r.result.status == HarnessStatus::Passed ==> r.metrics.frames_simulated
            == scenario.fixed_steps && r.assertions@.len() == run_checks(*scenario).len(),
        !(parse_seed_hex(scenario.seed.value_hex@) is Some && tweak_pack_applies(tweak_pack)) ==> {
            &&& r.result.status == HarnessStatus::Failed
            &&& r.result.summary@ == "Scenario could not be executed."@
            &&& r.metrics.frames_simulated == 0
            &&& r.metrics.simulation_rate_hz == scenario.simulation_rate_hz
            &&& r.metrics.spawned_actor_count == scenario.spawned_actors@.len() as u32
            &&& r.metrics.scripted_input_count == scenario.scripted_inputs@.len() as u32
            &&& r.metrics.applied_input_count == 0
            &&& r.assertions@.len() == 0
            &&& r.notes matches Some(n) && n@.len() == 1
                && n@[0]@ == "Execution failed before the fixed-step simulation completed."@
        },
        parse_seed_hex(scenario.seed.value_hex@) is None ==> {
            &&& r.result.details matches Some(d) && d@ == "failed to parse root seed: "@
                + invalid_hex_reason(scenario.seed.value_hex@)
            &&& r.report_seed.value_hex@ == scenario.seed.value_hex@
            &&& r.report_seed.derivations@.len() == 0
            &&& r.determinism_hash@ == lines_hash(
                seq![
                    scenario.seed.value_hex@,
                    "failed to parse root seed: "@ + invalid_hex_reason(scenario.seed.value_hex@),
                    decimal(0),
                ],
            )
        },
        parse_seed_hex(scenario.seed.value_hex@) matches Some(root) ==> is_report_seed(
            r.report_seed,
            scenario.seed,
            root,
            pack_name_of(seed_config_pack),
            pack_overrides_of(seed_config_pack),
        ),
        parse_seed_hex(scenario.seed.value_hex@) is Some && !tweak_pack_applies(tweak_pack)
            ==> match tweak_pack {
            Some(p) => exists|e: crate::wr_core::tweaks::TweakError, m: RegistryState|
                {
                    &&& crate::wr_core::tweaks::apply_pack_outcome(
                        default_registry_state(),
                        p.schema_version@,
                        p.entries@,
                        m,
                        Err(e),
                    )
                    &&& r.result.details matches Some(d) && d@ == "failed to apply tweak pack: "@
                        + crate::wr_core::tweaks::tweak_error_text(e)
                },
            None => false,
        },
        match parse_seed_hex(scenario.seed.value_hex@) {
            None => true,
            Some(root) => tweak_pack_applies(tweak_pack) ==> {
            &&& r.metrics.frames_simulated <= scenario.fixed_steps
            &&& r.metrics.simulation_rate_hz == scenario.simulation_rate_hz
            &&& r.metrics.spawned_actor_count == scenario_actors(*scenario, root).len() as u32
            &&& r.metrics.scripted_input_count == scenario.scripted_inputs@.len() as u32
            &&& r.metrics.applied_input_count == run_steps(
                start_inputs(tweak_pack),
                input_views(*scenario),
                scenario.simulation_rate_hz,
                r.metrics.frames_simulated as nat,
            ).0 as u32
            &&& is_run_report(r, *scenario)
            &&& are_run_verdicts(judge, *scenario, root, tweak_pack, r.assertions@)
            &&& exists|texts: Seq<String>, actuals: Seq<String>|
                {
                    &&& scalar_texts_from(texts, start_tweaks(tweak_pack), scalar_text)
                    &&& actual_texts_from(actuals, r.assertions@, actual_text)
                    &&& r.determinism_hash@ == lines_hash(
                        summary_lines(
                            run_world_records(
                                *scenario,
                                root,
                                tweak_pack,
                                r.metrics.frames_simulated,
                                texts.map_values(|t: String| t@),
                            ),
                            r.assertions@,
                            actuals.map_values(|t: String| t@),
                            scenario.seed.value_hex@,
                            scenario.fixed_steps,
                        ),
                    )
                }
        },
        },
{
    let seed = match RootSeed::parse_hex(scenario.seed.value_hex.as_str()) {
        Ok(s) => s,
        Err(e) => {
            let mut d = string_of("failed to parse root seed: ");
            push_str(&mut d, e.to_string().as_str());
            proof {
                let l = seq![scenario.seed.value_hex@, d@, decimal(0)];
                assert(l.map_values(|x: Seq<char>| vstd::utf8::encode_utf8(x)) =~= seq![
                    vstd::utf8::encode_utf8(scenario.seed.value_hex@),
                    vstd::utf8::encode_utf8(d@),
                    vstd::utf8::encode_utf8(decimal(0)),
                ]);
            }
            return failed_summary(
                scenario,
                plain_report_seed(&scenario.seed),
                0,
                0,
                Vec::new(),
                d,
            );
        },
    };
    let ghost root = seed@;
    let report_seed = build_report_seed_info(&scenario.seed, seed, seed_config_pack);
    let spawns = actor_spawns(scenario);
    let mut world = HeadlessScenarioWorld::new(
        scenario.simulation_rate_hz,
        seed,
        spawns.as_slice(),
    );
    assert(world.actor_views() == scenario_actors(*scenario, root));
    match tweak_pack {
        Some(pack) => {
            let applied = world.apply_tweak_pack(pack);
            let ghost oc = choose|oc: Result<(), crate::wr_core::tweaks::TweakError>|
                    {
                        &&& crate::wr_core::tweaks::apply_pack_outcome(
                            default_registry_state(),
                            pack.schema_version@,
                            pack.entries@,
                            world.tweaks(),
                            oc,
                        )
                        &&& match oc {
                            Ok(()) => applied is Ok,
                            Err(e) => applied matches Err(m) && m@
                                == crate::wr_core::tweaks::tweak_error_text(e),
                        }
                    };
            assert(applied is Ok <==> tweak_pack_applies(tweak_pack));
            match applied {
                Ok(()) => {},
                Err(e) => {
                    let mut d = string_of("failed to apply tweak pack: ");
                    push_str(&mut d, e.as_str());
                    proof {
                        let err = oc->Err_0;
                        assert(crate::wr_core::tweaks::apply_pack_outcome(
                            default_registry_state(),
                            pack.schema_version@,
                            pack.entries@,
                            world.tweaks(),
                            Err(err),
                        ));
                    }
                    return failed_summary(scenario, report_seed, 0, 0, Vec::new(), d);
                },
            }
        },
        None => {},
    }
    assert(world.input_state() == start_inputs(tweak_pack));
    assert(world.tweaks() == start_tweaks(tweak_pack));
    let ghost w0 = world;
    let (mut records, failure) = run_frames(&mut world, scenario, &judge);
    proof {

        assert(world.input_state() == run_steps(
            start_inputs(tweak_pack),
            input_views(*scenario),
            scenario.simulation_rate_hz,
            world.frames() as nat,
        ));
    }
    match failure {
        Some((frame, details)) => {
            proof {
                lemma_framed_verdicts(judge, *scenario, root, tweak_pack, w0, records@);
            }
            let mut summary = step_summary_text("Scenario failed on frame ", frame, " after ");
            push_decimal(&mut summary, world.frames_simulated() as u64);
            push_str(&mut summary, " simulated steps.");
            let r = finalize_summary(
                scenario,
                report_seed,
                &world,
                records,
                ResultEnvelope {
                    status: HarnessStatus::Failed,
                    summary,
                    failure_kind: Some(FailureKind::ScenarioFailed),
                    details: Some(details),
                },
                Some(vec![string_of("Execution stopped at the first failing assertion.")]),
                &scalar_text,
                &actual_text,
            );
            proof {
                lemma_run_hash(r, world, *scenario, root, tweak_pack, scalar_text, actual_text);
                lemma_stopped_in_frames(r, *scenario, frame);
            }
            return r;
        },
        None => {},
    }
    let simulated = world.frames_simulated();
    let ghost framed_records = records@;
    let outcome = run_final_assertions(&world, scenario, &judge, &mut records);
    proof {
        lemma_run_verdicts(judge, *scenario, root, tweak_pack, w0, world, framed_records, records@);
    }
    match outcome {
        Some(details) => {
            let summary = step_summary_text("Scenario failed after ", simulated, " simulated steps.");
            let r = finalize_summary(
                scenario,
                report_seed,
                &world,
                records,
                ResultEnvelope {
                    status: HarnessStatus::Failed,
                    summary,
                    failure_kind: Some(FailureKind::ScenarioFailed),
                    details: Some(details),
                },
                Some(vec![string_of("Execution stopped at the first failing assertion.")]),
                &scalar_text,
                &actual_text,
            );
            proof {
                lemma_run_hash(r, world, *scenario, root, tweak_pack, scalar_text, actual_text);
                lemma_stopped_after_frames(r, *scenario);
            }
            return r;
        },
        None => {},
    }
    let summary = step_summary_text(
        "Scenario completed ",
        simulated,
        " fixed steps without assertion failures.",
    );
    let r = finalize_summary(
        scenario,
        report_seed,
        &world,
        records,
        ResultEnvelope {
            status: HarnessStatus::Passed,
            summary,
            failure_kind: None,
            details: None,
        },
        Some(vec![string_of("Headless execution uses the ECS schedule spine.")]),
        &scalar_text,
        &actual_text,
    );
    proof {
        lemma_run_hash(r, world, *scenario, root, tweak_pack, scalar_text, actual_text);
        lemma_passed_report(r, *scenario);
    }
    r
}

/// Runs a scenario headless under the default seed config pack, as
/// `run_headless_scenario_with_config_packs` does.
pub fn run_headless_scenario_with_tweak_pack<J, F, G>(
    scenario: &ScenarioRequest,
    tweak_pack: Option<&TweakPack>,
    judge: J,
    scalar_text: F,
    actual_text: G,
) -> (r: HeadlessScenarioSummary) where
    J: Fn(MetricReading, &ScenarioAssertion, u32) -> ScenarioAssertionResult,
    F: Fn(u32) -> String,
    G: Fn(Option<u32>) -> String,

    requires
        scenario.scripted_inputs@.len() <= u32::MAX,
        forall|m: MetricReading, x: &ScenarioAssertion, f: u32| call_requires(judge, (m, x, f)),
        forall|b: u32| call_requires(scalar_text, (b,)),
        forall|a: Option<u32>| call_requires(actual_text, (a,)),
    ensures
        r.metrics.frames_requested == scenario.fixed_steps,
        (r.result.status == HarnessStatus::Passed) == (parse_seed_hex(
            scenario.seed.value_hex@,
        ) is Some && tweak_pack_applies(tweak_pack) && forall|k: int|
            0 <= k < r.assertions@.len() ==> (#[trigger] r.assertions@[k]).passed),
        (r.result.status == HarnessStatus::Failed) <==> r.result.failure_kind == Some(
            FailureKind::ScenarioFailed,
        ),
        r.result.status == HarnessStatus::Passed ==> r.result.failure_kind is None
            && r.metrics.frames_simulated == scenario.fixed_steps && r.assertions@.len()
            == run_checks(*scenario).len(),
        parse_seed_hex(scenario.seed.value_hex@) matches Some(root) ==> is_report_seed(
            r.report_seed,
            scenario.seed,
            root,
            "default"@,
            Seq::empty(),
        ),
        parse_seed_hex(scenario.seed.value_hex@) matches Some(root) ==> (tweak_pack_applies(
            tweak_pack,
        ) ==> are_run_verdicts(judge, *scenario, root, tweak_pack, r.assertions@)),
{
    run_headless_scenario_with_config_packs(scenario, None, tweak_pack, judge, scalar_text, actual_text)
}


/// Runs a scenario headless under the default seed config pack and no tweak pack, as
/// `run_headless_scenario_with_config_packs` does.
pub fn run_headless_scenario<J, F, G>(
    scenario: &ScenarioRequest,
    judge: J,
    scalar_text: F,
    actual_text: G,
) -> (r: HeadlessScenarioSummary) where
    J: Fn(MetricReading, &ScenarioAssertion, u32) -> ScenarioAssertionResult,
    F: Fn(u32) -> String,
    G: Fn(Option<u32>) -> String,

    requires
        scenario.scripted_inputs@.len() <= u32::MAX,
        forall|m: MetricReading, x: &ScenarioAssertion, f: u32| call_requires(judge, (m, x, f)),
        forall|b: u32| call_requires(scalar_text, (b,)),
        forall|a: Option<u32>| call_requires(actual_text, (a,)),
    ensures
        r.metrics.frames_requested == scenario.fixed_steps,
        (r.result.status == HarnessStatus::Passed) == (parse_seed_hex(
            scenario.seed.value_hex@,
        ) is Some && forall|k: int|
            0 <= k < r.assertions@.len() ==> (#[trigger] r.assertions@[k]).passed),
        (r.result.status == HarnessStatus::Failed) <==> r.result.failure_kind == Some(
            FailureKind::ScenarioFailed,
        ),
        r.result.status == HarnessStatus::Passed ==> r.result.failure_kind is None
            && r.metrics.frames_simulated == scenario.fixed_steps && r.assertions@.len()
            == run_checks(*scenario).len(),
        parse_seed_hex(scenario.seed.value_hex@) matches Some(root) ==> is_report_seed(
            r.report_seed,
            scenario.seed,
            root,
            "default"@,
            Seq::empty(),
        ),
        parse_seed_hex(scenario.seed.value_hex@) matches Some(root) ==> are_run_verdicts(
            judge,
            *scenario,
            root,
            None,
            r.assertions@,
        ),
{
    run_headless_scenario_with_config_packs(scenario, None, None, judge, scalar_text, actual_text)
}

} // verus!
