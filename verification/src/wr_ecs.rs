use vstd::prelude::*;

use crate::string_map::{StringSet, names_sorted, sorted_with, without};
use crate::text::{
    chars_of, chars_start_with, decimal, has_prefix, push_decimal, push_str, seq_lt, str_eq,
    str_lt, string_from_chars, string_of,
};
use crate::wr_core::tweaks::{
    RegistryState, TweakError, TweakNamespace, TweakPack, TweakRegistry, TweakValue,
    apply_pack_outcome,
    default_definitions, default_registry_state, definition_slot, namespace_str, registry_entries,
    registry_state_valid, tweak_error_text,
};
use crate::wr_core::{CrateBoundary, CrateEntryPoint, entry_card};
use crate::wr_world_seed::{RootSeed, hex_text, stream_seed};

verus! {

/// The entry point of the ECS crate: a subsystem, not integration-only.
pub fn init_entrypoint() -> (r: CrateEntryPoint)
    ensures
        entry_card(r, "wr_ecs"@, CrateBoundary::Subsystem, false),
{
    CrateEntryPoint::new("wr_ecs", CrateBoundary::Subsystem, false)
}

/// The schedules a world runs, in the order they run.
#[derive(Debug, Clone, Copy, PartialEq, Eq, PartialOrd, Ord, Hash, Structural)]
pub enum WorldSchedule {
    Startup,
    FixedPrePhysics,
    FixedPhysics,
    FixedGameplay,
    FixedPostGameplay,
    Extract,
    RenderPrep,
    Shutdown,
}

/// Every schedule, in run order.
pub open spec fn ordered_schedules() -> Seq<WorldSchedule> {
    seq![
        WorldSchedule::Startup,
        WorldSchedule::FixedPrePhysics,
        WorldSchedule::FixedPhysics,
        WorldSchedule::FixedGameplay,
        WorldSchedule::FixedPostGameplay,
        WorldSchedule::Extract,
        WorldSchedule::RenderPrep,
        WorldSchedule::Shutdown,
    ]
}

/// The stable name of a schedule.
pub open spec fn schedule_name(s: WorldSchedule) -> Seq<char> {
    match s {
        WorldSchedule::Startup => "Startup"@,
        WorldSchedule::FixedPrePhysics => "FixedPrePhysics"@,
        WorldSchedule::FixedPhysics => "FixedPhysics"@,
        WorldSchedule::FixedGameplay => "FixedGameplay"@,
        WorldSchedule::FixedPostGameplay => "FixedPostGameplay"@,
        WorldSchedule::Extract => "Extract"@,
        WorldSchedule::RenderPrep => "RenderPrep"@,
        WorldSchedule::Shutdown => "Shutdown"@,
    }
}

impl WorldSchedule {
    /// Every schedule, in run order.
    pub fn ordered() -> (r: Vec<WorldSchedule>)
        ensures
            r@ == ordered_schedules(),
    {
        let r = vec![
            WorldSchedule::Startup,
            WorldSchedule::FixedPrePhysics,
            WorldSchedule::FixedPhysics,
            WorldSchedule::FixedGameplay,
            WorldSchedule::FixedPostGameplay,
            WorldSchedule::Extract,
            WorldSchedule::RenderPrep,
            WorldSchedule::Shutdown,
        ];
        assert(r@ =~= ordered_schedules());
        r
    }

    /// The schedules of one fixed simulation step, in run order.
    pub fn fixed_frame() -> (r: Vec<WorldSchedule>)
        ensures
            r@ == ordered_schedules().subrange(1, 5),
    {
        let r = vec![
            WorldSchedule::FixedPrePhysics,
            WorldSchedule::FixedPhysics,
            WorldSchedule::FixedGameplay,
            WorldSchedule::FixedPostGameplay,
        ];
        assert(r@ =~= ordered_schedules().subrange(1, 5));
        r
    }

    /// The schedules of one rendered frame, in run order.
    pub fn render_frame() -> (r: Vec<WorldSchedule>)
        ensures
            r@ == ordered_schedules().subrange(5, 7),
    {
        let r = vec![WorldSchedule::Extract, WorldSchedule::RenderPrep];
        assert(r@ =~= ordered_schedules().subrange(5, 7));
        r
    }

    /// The schedule's stable name.
    pub fn as_str(self) -> (r: &'static str)
        ensures
            r@ == schedule_name(self),
    {
        match self {
            WorldSchedule::Startup => "Startup",
            WorldSchedule::FixedPrePhysics => "FixedPrePhysics",
            WorldSchedule::FixedPhysics => "FixedPhysics",
            WorldSchedule::FixedGameplay => "FixedGameplay",
            WorldSchedule::FixedPostGameplay => "FixedPostGameplay",
            WorldSchedule::Extract => "Extract",
            WorldSchedule::RenderPrep => "RenderPrep",
            WorldSchedule::Shutdown => "Shutdown",
        }
    }
}

/// The built-in system sets of a world.
#[derive(Debug, Clone, Copy, PartialEq, Eq, Hash, Structural)]
pub enum WorldSystemSet {
    Input,
    WorldGen,
    Combat,
    Ai,
    RenderExtract,
    Tooling,
}

/// An actor of a headless scenario and the signature of its seed stream.
#[derive(Debug, Clone, PartialEq, Eq)]
pub struct ScenarioActorState {
    pub actor_id: String,
    pub actor_kind: String,
    pub seed_stream: Option<String>,
    pub stream_signature: String,
}

/// An actor a headless scenario spawns.
#[derive(Debug, Clone, PartialEq, Eq)]
pub struct HeadlessActorSpawn {
    pub actor_id: String,
    pub actor_kind: String,
    pub seed_stream: Option<String>,
}

/// An input a headless scenario applies at a frame.
#[derive(Debug, PartialEq, Eq)]
pub struct HeadlessScriptedInput {
    pub frame: u32,
    pub action: String,
    pub state: String,
}

/// A scripted input by its parts: frame, action and state.
pub type InputView = (u32, Seq<char>, Seq<char>);

impl View for HeadlessScriptedInput {
    type V = InputView;

    open spec fn view(&self) -> InputView {
        (self.frame, self.action@, self.state@)
    }
}

impl Clone for HeadlessScriptedInput {
    fn clone(&self) -> (r: Self)
        ensures
            r@ == self@,
    {
        HeadlessScriptedInput {
            frame: self.frame,
            action: self.action.clone(),
            state: self.state.clone(),
        }
    }
}

/// An actor record by its parts: id, kind, seed stream and stream signature.
pub type ActorView = (Seq<char>, Seq<char>, Option<Seq<char>>, Seq<char>);

/// An optional string by its characters.
pub open spec fn optional_chars(s: Option<String>) -> Option<Seq<char>> {
    match s {
        Some(t) => Some(t@),
        None => None,
    }
}

impl View for ScenarioActorState {
    type V = ActorView;

    open spec fn view(&self) -> ActorView {
        (self.actor_id@, self.actor_kind@, optional_chars(self.seed_stream), self.stream_signature@)
    }
}

/// The record of a spawned actor under `seed`: its seed stream is the one it names, or else its
/// id, and the signature is that stream's hash text.
pub open spec fn actor_view(seed: u64, spawn: HeadlessActorSpawn) -> ActorView {
    let label = match spawn.seed_stream {
        Some(stream) => stream@,
        None => spawn.actor_id@,
    };
    (spawn.actor_id@, spawn.actor_kind@, optional_chars(spawn.seed_stream), hex_text(
        stream_seed(seed, label),
    ))
}

/// `x` placed after every record whose id is not above its own.
pub open spec fn insert_by_id(s: Seq<ActorView>, x: ActorView) -> Seq<ActorView>
    decreases s.len(),
{
    if s.len() == 0 {
        seq![x]
    } else if seq_lt(x.0, s[0].0) {
        seq![x] + s
    } else {
        seq![s[0]] + insert_by_id(s.drop_first(), x)
    }
}

/// The records ordered by id; records with equal ids keep their order (the stable sort that
/// `sort_by` on the ids gives).
pub open spec fn sort_by_id(s: Seq<ActorView>) -> Seq<ActorView>
    decreases s.len(),
{
    if s.len() == 0 {
        s
    } else {
        insert_by_id(sort_by_id(s.drop_last()), s.last())
    }
}

proof fn lemma_insert_by_id_at(s: Seq<ActorView>, x: ActorView, j: int)
    requires
        0 <= j <= s.len(),
        forall|k: int| 0 <= k < j ==> !seq_lt(x.0, #[trigger] s[k].0),
        j < s.len() ==> seq_lt(x.0, s[j].0),
    ensures
        insert_by_id(s, x) == s.insert(j, x),
    decreases j,
{
    if s.len() == 0 {
        assert(s.insert(j, x) =~= seq![x]);
    } else if j == 0 {
        assert(seq![x] + s =~= s.insert(0, x));
    } else {
        let t = s.drop_first();
        assert forall|k: int| 0 <= k < j - 1 implies !seq_lt(x.0, #[trigger] t[k].0) by {
            assert(t[k] == s[k + 1]);
        }
        if j < s.len() {
            assert(t[j - 1] == s[j]);
        }
        lemma_insert_by_id_at(t, x, j - 1);
        assert(seq![s[0]] + t.insert(j - 1, x) =~= s.insert(j, x));
    }
}

/// The state of scripted input handling: inputs applied, actions held and the event log.
pub type InputState = (nat, Seq<Seq<char>>, Seq<Seq<char>>);

/// The log line of an input that was applied.
pub open spec fn input_line(frame: u32, action: Seq<char>, state: Seq<char>) -> Seq<char> {
    "frame="@ + decimal(frame as nat) + ":input:"@ + action + ":"@ + state
}

/// The log line of an input whose state is neither `pressed` nor `released`.
pub open spec fn ignored_input_line(frame: u32, action: Seq<char>, state: Seq<char>) -> Seq<char> {
    "frame="@ + decimal(frame as nat) + ":ignored_input:"@ + action + ":"@ + state
}

/// One scripted input at `frame`: `pressed` holds the action, `released` lets it go, and both
/// count as applied; any other state is only logged as ignored.
pub open spec fn apply_input(st: InputState, frame: u32, input: InputView) -> InputState {
    let action = input.1;
    let state = input.2;
    if state == "pressed"@ {
        (st.0 + 1, sorted_with(st.1, action), st.2.push(input_line(frame, action, state)))
    } else if state == "released"@ {
        (st.0 + 1, without(st.1, action), st.2.push(input_line(frame, action, state)))
    } else {
        (st.0, st.1, st.2.push(ignored_input_line(frame, action, state)))
    }
}

/// The pending inputs applied in order at `frame`.
pub open spec fn apply_inputs(st: InputState, frame: u32, inputs: Seq<InputView>) -> InputState
    decreases inputs.len(),
{
    if inputs.len() == 0 {
        st
    } else {
        apply_input(apply_inputs(st, frame, inputs.drop_last()), frame, inputs.last())
    }
}

/// The log line of a fixed step.
pub open spec fn step_line(frame: u32, frames: nat, rate: u32, active: nat) -> Seq<char> {
    "frame="@ + decimal(frame as nat) + ":step:"@ + decimal(frames) + ":"@ + decimal(rate as nat)
        + "hz:"@ + decimal(active) + "actions"@
}

/// Names joined with commas.
pub open spec fn comma_joined(s: Seq<Seq<char>>) -> Seq<char>
    decreases s.len(),
{
    if s.len() == 0 {
        Seq::empty()
    } else if s.len() == 1 {
        s[0]
    } else {
        comma_joined(s.drop_last()) + ","@ + s.last()
    }
}

/// The changed namespaces of registry state `m`, in namespace order.
pub open spec fn dirty_namespace_list(m: RegistryState) -> Seq<TweakNamespace> {
    TweakNamespace::all_spec().filter(|n: TweakNamespace| m.1[crate::wr_core::tweaks::namespace_index(n)])
}

/// The log line after a tweak pack with `count` entries applied: the changed namespaces joined
/// with commas, or `none`.
pub open spec fn tweaks_applied_line(count: nat, m: RegistryState) -> Seq<char> {
    let names = dirty_namespace_list(m).map_values(|n: TweakNamespace| namespace_str(n));
    "tweaks:applied:"@ + decimal(count) + ":"@ + if names.len() == 0 {
        "none"@
    } else {
        comma_joined(names)
    }
}

fn input_line_text(frame: u32, action: &str, state: &str) -> (r: String)
    ensures
        r@ == input_line(frame, action@, state@),
{
    let mut r = string_of("frame=");
    push_decimal(&mut r, frame as u64);
    push_str(&mut r, ":input:");
    push_str(&mut r, action);
    push_str(&mut r, ":");
    push_str(&mut r, state);
    r
}

fn ignored_input_line_text(frame: u32, action: &str, state: &str) -> (r: String)
    ensures
        r@ == ignored_input_line(frame, action@, state@),
{
    let mut r = string_of("frame=");
    push_decimal(&mut r, frame as u64);
    push_str(&mut r, ":ignored_input:");
    push_str(&mut r, action);
    push_str(&mut r, ":");
    push_str(&mut r, state);
    r
}

fn step_line_text(frame: u32, frames: u32, rate: u32, active: usize) -> (r: String)
    ensures
        r@ == step_line(frame, frames as nat, rate, active as nat),
{
    let mut r = string_of("frame=");
    push_decimal(&mut r, frame as u64);
    push_str(&mut r, ":step:");
    push_decimal(&mut r, frames as u64);
    push_str(&mut r, ":");
    push_decimal(&mut r, rate as u64);
    push_str(&mut r, "hz:");
    push_decimal(&mut r, active as u64);
    push_str(&mut r, "actions");
    r
}

fn comma_joined_namespaces(names: &Vec<TweakNamespace>) -> (r: String)
    ensures
        r@ == comma_joined(names@.map_values(|n: TweakNamespace| namespace_str(n))),
{
    let ghost v = names@.map_values(|n: TweakNamespace| namespace_str(n));
    let mut r = String::new();
    let mut i: usize = 0;
    assert(v.take(0) =~= Seq::<Seq<char>>::empty());
    while i < names.len()
        invariant
            i <= names@.len(),
            v == names@.map_values(|n: TweakNamespace| namespace_str(n)),
            r@ == comma_joined(v.take(i as int)),
        decreases names@.len() - i,
    {
        proof {
            assert(v.take(i + 1).drop_last() =~= v.take(i as int));
            assert(v.take(i + 1).last() == v[i as int]);
        }
        if i > 0 {
            push_str(&mut r, ",");
        }
        push_str(&mut r, names[i].as_str());
        proof {
            if i == 0 {
                assert(v.take(1) =~= seq![v[0]]);
            }
        }
        i = i + 1;
    }
    assert(v.take(names@.len() as int) =~= v);
    r
}

/// How a tweak value appears in the world's records: the given text for a scalar (its value as
/// `{:.6}` writes it), `true` or `false` for a toggle.
pub open spec fn tweak_record_text(v: TweakValue, scalar_text: Seq<char>) -> Seq<char> {
    match v {
        TweakValue::Scalar(_) => scalar_text,
        TweakValue::Toggle(b) => if b {
            "true"@
        } else {
            "false"@
        },
    }
}

/// The record line of an actor.
pub open spec fn actor_record(a: ActorView) -> Seq<char> {
    "actor:"@ + a.0 + ":"@ + a.1 + ":"@ + a.3
}

/// The record lines of the tweaks, in definition order.
pub open spec fn tweak_records(m: RegistryState, scalar_texts: Seq<Seq<char>>) -> Seq<Seq<char>> {
    Seq::new(
        8,
        |i: int|
            "tweak:"@ + default_definitions()[i].key@ + "="@ + tweak_record_text(
                m.0[i],
                scalar_texts[i],
            ),
    )
}

/// The records that fix a world's state, in order: its counters, actors, tweaks, changed
/// namespaces, held actions and event log.
pub open spec fn world_records(
    frames: u32,
    rate: u32,
    applied: u32,
    actors: Seq<ActorView>,
    tweaks: RegistryState,
    actions: Seq<Seq<char>>,
    log: Seq<Seq<char>>,
    scalar_texts: Seq<Seq<char>>,
) -> Seq<Seq<char>> {
    seq![
        "frames="@ + decimal(frames as nat),
        "rate_hz="@ + decimal(rate as nat),
        "applied_inputs="@ + decimal(applied as nat),
    ] + actors.map_values(|a: ActorView| actor_record(a)) + tweak_records(tweaks, scalar_texts)
        + dirty_namespace_list(tweaks).map_values(
        |n: TweakNamespace| "tweak_dirty:"@ + namespace_str(n),
    ) + actions.map_values(|a: Seq<char>| "active_action:"@ + a) + log
}

fn labelled_decimal(label: &str, n: u32) -> (r: String)
    ensures
        r@ == label@ + decimal(n as nat),
{
    let mut r = string_of(label);
    push_decimal(&mut r, n as u64);
    r
}

proof fn lemma_without_after_with(s: Seq<Seq<char>>, a: Seq<char>)
    ensures
        without(sorted_with(s, a), a) == without(s, a),
    decreases s.len(),
{
    if s.len() == 0 {
        let w = seq![a];
        assert(w[0] == a);
        assert(w.drop_first() =~= s);
        assert(without(w, a) == without(w.drop_first(), a));
    } else if seq_lt(a, s[0]) {
        let w = seq![a] + s;
        assert(w[0] == a);
        assert(w.drop_first() =~= s);
        assert(without(w, a) == without(w.drop_first(), a));
    } else if a != s[0] {
        let t = sorted_with(s.drop_first(), a);
        lemma_without_after_with(s.drop_first(), a);
        let w = seq![s[0]] + t;
        assert(w[0] == s[0]);
        assert(w.drop_first() =~= t);
        assert(without(w, a) == seq![s[0]] + without(w.drop_first(), a));
    }
}

/// Pressing an action and then releasing it counts two applied inputs and leaves the held
/// actions as they were without that action.
pub proof fn lemma_press_then_release(
    st: InputState,
    frame: u32,
    pressed: InputView,
    released: InputView,
)
    requires
        pressed.2 == "pressed"@,
        released.2 == "released"@,
        pressed.1 == released.1,
    ensures
        apply_inputs(st, frame, seq![pressed, released]).0 == st.0 + 2,
        apply_inputs(st, frame, seq![pressed, released]).1 == without(st.1, pressed.1),
{
    reveal_strlit("pressed");
    reveal_strlit("released");
    assert("pressed"@ != "released"@) by {
        assert("pressed"@[0] != "released"@[0]);
    }
    let s = seq![pressed, released];
    let one = seq![pressed];
    assert(s.drop_last() =~= one);
    assert(s.last() == released);
    assert(one.drop_last() =~= Seq::<InputView>::empty());
    assert(one.last() == pressed);
    assert(apply_inputs(st, frame, Seq::<InputView>::empty()) == st);
    let st1 = apply_input(st, frame, pressed);
    assert(apply_inputs(st, frame, one) == st1);
    assert(apply_inputs(st, frame, s) == apply_input(st1, frame, released));
    lemma_without_after_with(st.1, pressed.1);
}

/// Inputs whose state is neither `pressed` nor `released` are only logged: they count for
/// nothing and hold or release nothing.
pub proof fn lemma_ignored_inputs_only_log(st: InputState, frame: u32, inputs: Seq<InputView>)
    requires
        forall|k: int|
            0 <= k < inputs.len() ==> (#[trigger] inputs[k]).2 != "pressed"@ && inputs[k].2
                != "released"@,
    ensures
        apply_inputs(st, frame, inputs).0 == st.0,
        apply_inputs(st, frame, inputs).1 == st.1,
        apply_inputs(st, frame, inputs).2.len() == st.2.len() + inputs.len(),
    decreases inputs.len(),
{
    if inputs.len() > 0 {
        let t = inputs.drop_last();
        assert forall|k: int| 0 <= k < t.len() implies (#[trigger] t[k]).2 != "pressed"@
            && t[k].2 != "released"@ by {
            assert(t[k] == inputs[k]);
        }
        lemma_ignored_inputs_only_log(st, frame, t);
        assert(inputs.last() == inputs[inputs.len() - 1]);
    }
}

/// A metric that a scenario assertion reads: a count, or the live value of a tweak.
#[derive(Debug, Clone, Copy, PartialEq)]
pub enum MetricReading {
    Count(u64),
    Tweak(TweakValue),
}

/// The value of the metric named `metric` in a world of `actor_count` actors that has simulated
/// `frames` steps, with input state `st` and tweaks `tweaks`, in the order the names are tried.
pub open spec fn metric_of(
    actor_count: nat,
    frames: u32,
    st: InputState,
    tweaks: RegistryState,
    metric: Seq<char>,
) -> Option<MetricReading> {
    if metric == "world.actor_count"@ {
        Some(MetricReading::Count(actor_count as u64))
    } else if metric == "world.frames_simulated"@ || metric == "startup.frame_count"@ {
        Some(MetricReading::Count(frames as u64))
    } else if metric == "world.active_action_count"@ {
        Some(MetricReading::Count(st.1.len() as u64))
    } else if metric == "world.applied_input_count"@ {
        Some(MetricReading::Count(st.0 as u64))
    } else if metric == "tweaks.dirty_namespace_count"@ {
        Some(MetricReading::Count(dirty_namespace_list(tweaks).len() as u64))
    } else if has_prefix(metric, "tweak."@) {
        match definition_slot(metric.subrange("tweak."@.len() as int, metric.len() as int)) {
            Some(i) => Some(MetricReading::Tweak(tweaks.0[i])),
            None => None,
        }
    } else {
        None
    }
}

/// A headless scenario's world: its actors, the tweaks, the actions held, the inputs waiting for
/// the next step, and the log of what happened. Each fixed step applies the waiting inputs and
/// then advances the simulation, as the fixed-frame schedules run those two systems in order.
#[derive(Debug)]
pub struct HeadlessScenarioWorld {
    simulation_rate_hz: u32,
    frames_simulated: u32,
    applied_input_count: u32,
    active_actions: StringSet,
    event_log: Vec<String>,
    pending_inputs: Vec<HeadlessScriptedInput>,
    tweaks: TweakRegistry,
    actors: Vec<ScenarioActorState>,
}

impl HeadlessScenarioWorld {
    /// The simulation rate.
    pub closed spec fn rate(&self) -> u32 {
        self.simulation_rate_hz
    }

    /// The fixed steps simulated so far.
    pub closed spec fn frames(&self) -> u32 {
        self.frames_simulated
    }

    /// The inputs applied so far.
    pub closed spec fn applied(&self) -> u32 {
        self.applied_input_count
    }

    /// The actions held, in order.
    pub closed spec fn actions(&self) -> Seq<Seq<char>> {
        self.active_actions@
    }

    /// The event log.
    pub closed spec fn log(&self) -> Seq<Seq<char>> {
        self.event_log@.map_values(|s: String| s@)
    }

    /// The inputs waiting for the next step.
    pub closed spec fn pending(&self) -> Seq<InputView> {
        self.pending_inputs@.map_values(|i: HeadlessScriptedInput| i@)
    }

    /// The state of the world's tweaks.
    pub closed spec fn tweaks(&self) -> RegistryState {
        self.tweaks@
    }

    /// The actor records, ordered by id.
    pub closed spec fn actor_views(&self) -> Seq<ActorView> {
        self.actors@.map_values(|a: ScenarioActorState| a@)
    }

    /// The value of the metric named `metric`, in the order the names are tried.
    pub open spec fn metric_spec(&self, metric: Seq<char>) -> Option<MetricReading> {
        metric_of(self.actor_views().len(), self.frames(), self.input_state(), self.tweaks(), metric)
    }

    /// The input handling state.
    pub open spec fn input_state(&self) -> InputState {
        (self.applied() as nat, self.actions(), self.log())
    }

    #[verifier::type_invariant]
    closed spec fn valid(self) -> bool {
        names_sorted(self.active_actions@) && registry_state_valid(self.tweaks@)
    }

    /// A world at the given rate whose actors are spawned from `actors` under `seed`, ordered by
    /// id; nothing has happened yet and every tweak is at its default.
    pub fn new(simulation_rate_hz: u32, seed: RootSeed, actors: &[HeadlessActorSpawn]) -> (r: Self)
        ensures
            r.rate() == simulation_rate_hz,
            r.frames() == 0,
            r.applied() == 0,
            r.actions() == Seq::<Seq<char>>::empty(),
            r.log() == Seq::<Seq<char>>::empty(),
            r.pending() == Seq::<InputView>::empty(),
            r.tweaks() == default_registry_state(),
            r.actor_views() == sort_by_id(actors@.map_values(|a: HeadlessActorSpawn| actor_view(seed@, a))),
    {
        let ghost views = actors@.map_values(|a: HeadlessActorSpawn| actor_view(seed@, a));
        let mut sorted: Vec<ScenarioActorState> = Vec::new();
        let mut i: usize = 0;
        while i < actors.len()
            invariant
                i <= actors@.len(),
                views == actors@.map_values(|a: HeadlessActorSpawn| actor_view(seed@, a)),
                sorted@.map_values(|a: ScenarioActorState| a@) == sort_by_id(views.take(i as int)),
            decreases actors@.len() - i,
        {
            let spawn = &actors[i];
            let signature = match &spawn.seed_stream {
                Some(stream) => seed.derive_stream_hex(stream.as_str()),
                None => seed.derive_stream_hex(spawn.actor_id.as_str()),
            };
            let record = ScenarioActorState {
                actor_id: spawn.actor_id.clone(),
                actor_kind: spawn.actor_kind.clone(),
                seed_stream: match &spawn.seed_stream {
                    Some(stream) => Some(stream.clone()),
                    None => None,
                },
                stream_signature: signature,
            };
            assert(record@ == views[i as int]);
            let ghost before = sorted@.map_values(|a: ScenarioActorState| a@);
            let id = chars_of(record.actor_id.as_str());
            let mut j: usize = 0;
            while j < sorted.len()
                invariant
                    j <= sorted@.len(),
                    id@ == record@.0,
                    before == sorted@.map_values(|a: ScenarioActorState| a@),
                    forall|k: int| 0 <= k < j ==> !seq_lt(record@.0, #[trigger] before[k].0),
                ensures
                    j <= sorted@.len(),
                    forall|k: int| 0 <= k < j ==> !seq_lt(record@.0, #[trigger] before[k].0),
                    j < sorted@.len() ==> seq_lt(record@.0, before[j as int].0),
                decreases sorted@.len() - j,
            {
                let other = chars_of(sorted[j].actor_id.as_str());
                if str_lt(&id, &other) {
                    break;
                }
                j = j + 1;
            }
            proof {
                lemma_insert_by_id_at(before, record@, j as int);
                assert(views.take(i + 1).drop_last() =~= views.take(i as int));
                assert(views.take(i + 1).last() == views[i as int]);
            }
            let ghost rv = record@;
            sorted.insert(j, record);
            assert(sorted@.map_values(|a: ScenarioActorState| a@) =~= before.insert(j as int, rv));
            i = i + 1;
        }
        assert(views.take(actors@.len() as int) =~= views);
        let r = HeadlessScenarioWorld {
            simulation_rate_hz,
            frames_simulated: 0,
            applied_input_count: 0,
            active_actions: StringSet::new(),
            event_log: Vec::new(),
            pending_inputs: Vec::new(),
            tweaks: TweakRegistry::default(),
            actors: sorted,
        };
        assert(r.log() =~= Seq::<Seq<char>>::empty());
        assert(r.pending() =~= Seq::<InputView>::empty());
        r
    }

    /// Queues scripted inputs for the next step.
    pub fn apply_inputs(&mut self, inputs: &[HeadlessScriptedInput])
        ensures
            final(self).pending() == old(self).pending() + inputs@.map_values(
                |i: HeadlessScriptedInput| i@,
            ),
            final(self).input_state() == old(self).input_state(),
            final(self).frames() == old(self).frames(),
            final(self).rate() == old(self).rate(),
            final(self).tweaks() == old(self).tweaks(),
            final(self).actor_views() == old(self).actor_views(),
    {
        proof {
            use_type_invariant(&*self);
        }
        let ghost p0 = self.pending();
        let ghost iv = inputs@.map_values(|i: HeadlessScriptedInput| i@);
        let mut pending: Vec<HeadlessScriptedInput> = Vec::new();
        std::mem::swap(&mut pending, &mut self.pending_inputs);
        assert(pending@.map_values(|i: HeadlessScriptedInput| i@) == p0);
        let mut i: usize = 0;
        while i < inputs.len()
            invariant
                i <= inputs@.len(),
                iv == inputs@.map_values(|i: HeadlessScriptedInput| i@),
                pending@.map_values(|i: HeadlessScriptedInput| i@) == p0 + iv.take(i as int),
            decreases inputs@.len() - i,
        {
            let input = inputs[i].clone();
            let ghost before = pending@.map_values(|i: HeadlessScriptedInput| i@);
            pending.push(input);
            assert(pending@.map_values(|i: HeadlessScriptedInput| i@) =~= before.push(iv[i as int]));
            assert(p0 + iv.take(i + 1) =~= (p0 + iv.take(i as int)).push(iv[i as int]));
            i = i + 1;
        }
        self.pending_inputs = pending;
        assert(iv.take(inputs@.len() as int) =~= iv);
    }

    /// Runs one fixed step at `frame`: the waiting inputs are applied in order, then the
    /// simulation advances and logs the step with the number of actions held.
    pub fn step(&mut self, frame: u32)
        requires
            old(self).frames() < u32::MAX,
            old(self).applied() + old(self).pending().len() <= u32::MAX,
        ensures
            final(self).applied() == apply_inputs(old(self).input_state(), frame, old(self).pending()).0,
            final(self).actions() == apply_inputs(old(self).input_state(), frame, old(self).pending()).1,
            final(self).frames() == old(self).frames() + 1,
            final(self).log() == apply_inputs(old(self).input_state(), frame, old(self).pending()).2.push(
                step_line(
                    frame,
                    (old(self).frames() + 1) as nat,
                    old(self).rate(),
                    apply_inputs(old(self).input_state(), frame, old(self).pending()).1.len(),
                ),
            ),
            final(self).pending() == Seq::<InputView>::empty(),
            final(self).rate() == old(self).rate(),
            final(self).tweaks() == old(self).tweaks(),
            final(self).actor_views() == old(self).actor_views(),
    {
        proof {
            use_type_invariant(&*self);
        }
        let ghost st0 = self.input_state();
        let ghost pv = self.pending();
        let mut pending: Vec<HeadlessScriptedInput> = Vec::new();
        std::mem::swap(&mut pending, &mut self.pending_inputs);
        let mut actions = StringSet::new();
        std::mem::swap(&mut actions, &mut self.active_actions);
        let mut log: Vec<String> = Vec::new();
        std::mem::swap(&mut log, &mut self.event_log);
        let mut applied = self.applied_input_count;
        assert(pending@.map_values(|i: HeadlessScriptedInput| i@) == pv);
        assert(st0 == (applied as nat, actions@, log@.map_values(|s: String| s@)));
        let mut i: usize = 0;
        assert(pv.take(0) =~= Seq::<InputView>::empty());
        while i < pending.len()
            invariant
                i <= pending@.len(),
                pv == pending@.map_values(|i: HeadlessScriptedInput| i@),
                st0.0 + pv.len() <= u32::MAX,
                applied <= st0.0 + i,
                (applied as nat, actions@, log@.map_values(|s: String| s@)) == apply_inputs(
                    st0,
                    frame,
                    pv.take(i as int),
                ),
            decreases pending@.len() - i,
        {
            let input = &pending[i];
            assert(pv[i as int] == input@);
            proof {
                assert(pv.take(i + 1).drop_last() =~= pv.take(i as int));
                assert(pv.take(i + 1).last() == pv[i as int]);
            }
            let ghost log0 = log@.map_values(|s: String| s@);
            if str_eq(input.state.as_str(), "pressed") {
                actions.insert(input.action.clone());
                applied = applied + 1;
                let line = input_line_text(frame, input.action.as_str(), input.state.as_str());
                let ghost lv = line@;
                log.push(line);
                assert(log@.map_values(|s: String| s@) =~= log0.push(lv));
            } else if str_eq(input.state.as_str(), "released") {
                actions.remove(input.action.as_str());
                applied = applied + 1;
                let line = input_line_text(frame, input.action.as_str(), input.state.as_str());
                let ghost lv = line@;
                log.push(line);
                assert(log@.map_values(|s: String| s@) =~= log0.push(lv));
            } else {
                let line = ignored_input_line_text(
                    frame,
                    input.action.as_str(),
                    input.state.as_str(),
                );
                let ghost lv = line@;
                log.push(line);
                assert(log@.map_values(|s: String| s@) =~= log0.push(lv));
            }
            i = i + 1;
        }
        assert(pv.take(pending@.len() as int) =~= pv);
        let frames = self.frames_simulated + 1;
        let line = step_line_text(frame, frames, self.simulation_rate_hz, actions.len());
        let ghost log1 = log@.map_values(|s: String| s@);
        let ghost lv = line@;
        log.push(line);
        assert(log@.map_values(|s: String| s@) =~= log1.push(lv));
        self.applied_input_count = applied;
        self.active_actions = actions;
        self.event_log = log;
        self.frames_simulated = frames;
        assert(self.pending() =~= Seq::<InputView>::empty());
    }

    /// Applies a tweak pack to the world's tweaks, as `TweakRegistry::apply_pack` does; a refusal
    /// is returned as its message (the entries before the refused one stay applied). When it
    /// applies, the log records the pack's size and every namespace changed so far.
    pub fn apply_tweak_pack(&mut self, pack: &TweakPack) -> (r: Result<(), String>)
        ensures
            registry_state_valid(final(self).tweaks()),
            exists|outcome: Result<(), TweakError>|
                {
                    &&& apply_pack_outcome(
                        old(self).tweaks(),
                        pack.schema_version@,
                        pack.entries@,
                        final(self).tweaks(),
                        outcome,
                    )
                    &&& match outcome {
                        Ok(()) => r is Ok,
                        Err(e) => r matches Err(m) && m@ == tweak_error_text(e),
                    }
                },
            r is Ok ==> final(self).log() == old(self).log().push(
                tweaks_applied_line(pack.entries@.len(), final(self).tweaks()),
            ),
            r is Err ==> final(self).log() == old(self).log(),
            final(self).applied() == old(self).applied(),
            final(self).actions() == old(self).actions(),
            final(self).pending() == old(self).pending(),
            final(self).frames() == old(self).frames(),
            final(self).rate() == old(self).rate(),
            final(self).actor_views() == old(self).actor_views(),
    {
        proof {
            use_type_invariant(&*self);
        }
        let ghost t0 = self.tweaks();
        let mut tweaks = TweakRegistry::default();
        std::mem::swap(&mut tweaks, &mut self.tweaks);
        let outcome = tweaks.apply_pack(pack);
        self.tweaks = tweaks;
        assert(apply_pack_outcome(t0, pack.schema_version@, pack.entries@, self.tweaks(), outcome));
        let ghost oc = outcome;
        match outcome {
            Ok(()) => {},
            Err(e) => {
                let message = e.to_string();
                assert(message@ == tweak_error_text(e));
                return Err(message);
            },
        }
        let dirty = self.tweaks.dirty_namespaces();
        let mut line = string_of("tweaks:applied:");
        push_decimal(&mut line, pack.entries.len() as u64);
        push_str(&mut line, ":");
        if dirty.len() == 0 {
            push_str(&mut line, "none");
        } else {
            let joined = comma_joined_namespaces(&dirty);
            push_str(&mut line, joined.as_str());
        }
        proof {
            assert(dirty@.map_values(|n: TweakNamespace| namespace_str(n)).len() == dirty@.len());
        }
        let mut log: Vec<String> = Vec::new();
        std::mem::swap(&mut log, &mut self.event_log);
        let ghost log0 = log@.map_values(|s: String| s@);
        let ghost lv = line@;
        log.push(line);
        assert(log@.map_values(|s: String| s@) =~= log0.push(lv));
        self.event_log = log;
        assert(apply_pack_outcome(t0, pack.schema_version@, pack.entries@, self.tweaks(), oc));
        Ok(())
    }

    /// The value of a metric: the actor count, the fixed steps simulated (also under
    /// `startup.frame_count`), the actions held, the inputs applied, the namespaces changed, or
    /// under `tweak.` and a key the live value of that tweak; `None` for any other name.
    pub fn metric_value(&self, metric: &str) -> (r: Option<MetricReading>)
        ensures
            r == self.metric_spec(metric@),
    {
        proof {
            use_type_invariant(self);
        }
        if str_eq(metric, "world.actor_count") {
            return Some(MetricReading::Count(self.actors.len() as u64));
        }
        if str_eq(metric, "world.frames_simulated") || str_eq(metric, "startup.frame_count") {
            return Some(MetricReading::Count(self.frames_simulated as u64));
        }
        if str_eq(metric, "world.active_action_count") {
            return Some(MetricReading::Count(self.active_actions.len() as u64));
        }
        if str_eq(metric, "world.applied_input_count") {
            return Some(MetricReading::Count(self.applied_input_count as u64));
        }
        if str_eq(metric, "tweaks.dirty_namespace_count") {
            return Some(MetricReading::Count(self.tweaks.dirty_namespace_count() as u64));
        }
        let chars = chars_of(metric);
        let prefix = chars_of("tweak.");
        if !chars_start_with(&chars, &prefix) {
            return None;
        }
        let key = string_from_chars(&chars, prefix.len(), chars.len());
        match self.tweaks.value(key.as_str()) {
            Some(value) => Some(MetricReading::Tweak(value)),
            None => None,
        }
    }

    /// The fixed steps simulated so far.
    pub fn frames_simulated(&self) -> (r: u32)
        ensures
            r == self.frames(),
    {
        self.frames_simulated
    }

    /// The simulation rate.
    pub fn simulation_rate_hz(&self) -> (r: u32)
        ensures
            r == self.rate(),
    {
        self.simulation_rate_hz
    }

    /// The number of actors, as a `u32` (the count's low 32 bits).
    pub fn actor_count(&self) -> (r: u32)
        ensures
            r == self.actor_views().len() as u32,
    {
        self.actors.len() as u32
    }

    /// The number of entities the world spawned: one per actor.
    pub fn entity_count(&self) -> (r: u32)
        ensures
            r == self.actor_views().len() as u32,
    {
        self.actor_count()
    }

    /// The inputs applied so far.
    pub fn applied_input_count(&self) -> (r: u32)
        ensures
            r == self.applied(),
    {
        self.applied_input_count
    }

    /// The number of actions held, as a `u32` (the count's low 32 bits).
    pub fn active_action_count(&self) -> (r: u32)
        ensures
            r == self.actions().len() as u32,
    {
        self.active_actions.len() as u32
    }

    /// The world's tweaks.
    pub fn tweak_registry(&self) -> (r: &TweakRegistry)
        ensures
            r@ == self.tweaks(),
    {
        &self.tweaks
    }

    /// The records that fix the world's state, in order: its counters, actors, tweaks, changed
    /// namespaces, held actions and event log. `scalar_texts[i]` is how the `i`-th tweak's live
    /// value is written when it is a scalar (the caller formats the number, `{:.6}`).
    pub fn deterministic_records(&self, scalar_texts: &[String; 8]) -> (r: Vec<String>)
        ensures
            r@.map_values(|s: String| s@) == world_records(
                self.frames(),
                self.rate(),
                self.applied(),
                self.actor_views(),
                self.tweaks(),
                self.actions(),
                self.log(),
                scalar_texts@.map_values(|s: String| s@),
            ),
    {
        proof {
            use_type_invariant(self);
        }
        let ghost texts = scalar_texts@.map_values(|s: String| s@);
        let mut r: Vec<String> = Vec::new();
        r.push(labelled_decimal("frames=", self.frames_simulated));
        r.push(labelled_decimal("rate_hz=", self.simulation_rate_hz));
        r.push(labelled_decimal("applied_inputs=", self.applied_input_count));
        let ghost head = seq![
            "frames="@ + decimal(self.frames() as nat),
            "rate_hz="@ + decimal(self.rate() as nat),
            "applied_inputs="@ + decimal(self.applied() as nat),
        ];
        assert(r@.map_values(|s: String| s@) =~= head);

        let ghost actor_lines = self.actor_views().map_values(|a: ActorView| actor_record(a));
        let mut i: usize = 0;
        while i < self.actors.len()
            invariant
                i <= self.actors@.len(),
                actor_lines == self.actor_views().map_values(|a: ActorView| actor_record(a)),
                r@.map_values(|s: String| s@) == head + actor_lines.take(i as int),
            decreases self.actors@.len() - i,
        {
            let actor = &self.actors[i];
            assert(actor@ == self.actor_views()[i as int]);
            let mut line = string_of("actor:");
            push_str(&mut line, actor.actor_id.as_str());
            push_str(&mut line, ":");
            push_str(&mut line, actor.actor_kind.as_str());
            push_str(&mut line, ":");
            push_str(&mut line, actor.stream_signature.as_str());
            let ghost before = r@.map_values(|s: String| s@);
            let ghost lv = line@;
            r.push(line);
            assert(r@.map_values(|s: String| s@) =~= before.push(lv));
            assert(actor_lines.take(i + 1) =~= actor_lines.take(i as int).push(actor_lines[i as int]));
            i = i + 1;
        }
        assert(actor_lines.take(self.actors@.len() as int) =~= actor_lines);
        let ghost p1 = head + actor_lines;

        let ghost tweak_lines = tweak_records(self.tweaks(), texts);
        let entries = self.tweaks.entries();
        let mut i: usize = 0;
        while i < 8
            invariant
                i <= 8,
                entries@ == registry_entries(self.tweaks()),
                texts == scalar_texts@.map_values(|s: String| s@),
                tweak_lines == tweak_records(self.tweaks(), texts),
                r@.map_values(|s: String| s@) == p1 + tweak_lines.take(i as int),
            decreases 8 - i,
        {
            let entry = &entries[i];
            let mut line = string_of("tweak:");
            push_str(&mut line, entry.key);
            push_str(&mut line, "=");
            match entry.value {
                TweakValue::Scalar(_) => push_str(&mut line, scalar_texts[i].as_str()),
                TweakValue::Toggle(b) => if b {
                    push_str(&mut line, "true")
                } else {
                    push_str(&mut line, "false")
                },
            }
            assert(texts[i as int] == scalar_texts@[i as int]@);
            let ghost before = r@.map_values(|s: String| s@);
            let ghost lv = line@;
            r.push(line);
            assert(r@.map_values(|s: String| s@) =~= before.push(lv));
            assert(tweak_lines.take(i + 1) =~= tweak_lines.take(i as int).push(tweak_lines[i as int]));
            i = i + 1;
        }
        assert(tweak_lines.take(8) =~= tweak_lines);
        let ghost p2 = p1 + tweak_lines;

        let dirty = self.tweaks.dirty_namespaces();
        let ghost dirty_lines = dirty_namespace_list(self.tweaks()).map_values(
            |n: TweakNamespace| "tweak_dirty:"@ + namespace_str(n),
        );
        let mut i: usize = 0;
        while i < dirty.len()
            invariant
                i <= dirty@.len(),
                dirty@ == dirty_namespace_list(self.tweaks()),
                dirty_lines == dirty_namespace_list(self.tweaks()).map_values(
                    |n: TweakNamespace| "tweak_dirty:"@ + namespace_str(n),
                ),
                r@.map_values(|s: String| s@) == p2 + dirty_lines.take(i as int),
            decreases dirty@.len() - i,
        {
            let mut line = string_of("tweak_dirty:");
            push_str(&mut line, dirty[i].as_str());
            let ghost before = r@.map_values(|s: String| s@);
            let ghost lv = line@;
            r.push(line);
            assert(r@.map_values(|s: String| s@) =~= before.push(lv));
            assert(dirty_lines.take(i + 1) =~= dirty_lines.take(i as int).push(dirty_lines[i as int]));
            i = i + 1;
        }
        assert(dirty_lines.take(dirty@.len() as int) =~= dirty_lines);
        let ghost p3 = p2 + dirty_lines;

        let ghost action_lines = self.actions().map_values(|a: Seq<char>| "active_action:"@ + a);
        let mut i: usize = 0;
        while i < self.active_actions.len()
            invariant
                i <= self.actions().len(),
                action_lines == self.actions().map_values(|a: Seq<char>| "active_action:"@ + a),
                r@.map_values(|s: String| s@) == p3 + action_lines.take(i as int),
            decreases self.actions().len() - i,
        {
            let mut line = string_of("active_action:");
            push_str(&mut line, self.active_actions.name_at(i).as_str());
            let ghost before = r@.map_values(|s: String| s@);
            let ghost lv = line@;
            r.push(line);
            assert(r@.map_values(|s: String| s@) =~= before.push(lv));
            assert(action_lines.take(i + 1) =~= action_lines.take(i as int).push(action_lines[i as int]));
            i = i + 1;
        }
        assert(action_lines.take(self.actions().len() as int) =~= action_lines);
        let ghost p4 = p3 + action_lines;

        let ghost log = self.log();
        let mut i: usize = 0;
        while i < self.event_log.len()
            invariant
                i <= self.event_log@.len(),
                log == self.log(),
                r@.map_values(|s: String| s@) == p4 + log.take(i as int),
            decreases self.event_log@.len() - i,
        {
            let line = self.event_log[i].clone();
            let ghost before = r@.map_values(|s: String| s@);
            let ghost lv = line@;
            assert(lv == log[i as int]);
            r.push(line);
            assert(r@.map_values(|s: String| s@) =~= before.push(lv));
            assert(log.take(i + 1) =~= log.take(i as int).push(log[i as int]));
            i = i + 1;
        }
        assert(log.take(self.event_log@.len() as int) =~= log);
        r
    }
}

} // verus!
