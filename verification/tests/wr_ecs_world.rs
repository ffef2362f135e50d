use wrela::wr_core::tweaks::{TweakEntries, TweakNamespace, TweakPack, TweakValue};
use wrela::wr_ecs::{HeadlessActorSpawn, HeadlessScenarioWorld, HeadlessScriptedInput, MetricReading};
use wrela::wr_world_seed::RootSeed;

fn test_world() -> HeadlessScenarioWorld {
    HeadlessScenarioWorld::new(
        60,
        RootSeed::parse_hex("0xDEADBEEF").expect("seed should parse"),
        &[HeadlessActorSpawn {
            actor_id: "player".to_owned(),
            actor_kind: "player_sword".to_owned(),
            seed_stream: Some("player".to_owned()),
        }],
    )
}

fn scalar_texts(world: &HeadlessScenarioWorld) -> [String; 8] {
    let entries = world.tweak_registry().entries();
    std::array::from_fn(|index| match entries[index].value {
        TweakValue::Scalar(bits) => format!("{:.6}", f32::from_bits(bits)),
        TweakValue::Toggle(_) => String::new(),
    })
}

fn records(world: &HeadlessScenarioWorld) -> Vec<String> {
    world.deterministic_records(&scalar_texts(world))
}

fn metric(world: &HeadlessScenarioWorld, name: &str) -> Option<f32> {
    world.metric_value(name).map(|reading| match reading {
        MetricReading::Count(count) => count as f32,
        MetricReading::Tweak(TweakValue::Scalar(bits)) => f32::from_bits(bits),
        MetricReading::Tweak(TweakValue::Toggle(on)) => {
            if on {
                1.0
            } else {
                0.0
            }
        }
    })
}

fn inputs_at(inputs: &[HeadlessScriptedInput], frame: u32) -> Vec<HeadlessScriptedInput> {
    inputs.iter().filter(|input| input.frame == frame).cloned().collect()
}

#[test]
fn ignored_inputs_do_not_increment_applied_input_count() {
    let mut world = test_world();
    let inputs = [HeadlessScriptedInput {
        frame: 0,
        action: "dash".to_owned(),
        state: "unknown_state".to_owned(),
    }];

    world.apply_inputs(&inputs);
    world.step(0);

    assert_eq!(world.applied_input_count(), 0);
    assert_eq!(metric(&world, "world.applied_input_count"), Some(0.0));
    assert!(records(&world).iter().any(|record| record.contains("ignored_input:dash:unknown_state")));
    assert!(!records(&world).iter().any(|record| record == "frame=0:input:dash:unknown_state"));
}

#[test]
fn unknown_metrics_return_none() {
    let world = test_world();

    assert_eq!(world.metric_value("world.unknown_metric"), None);
}

#[test]
fn deterministic_records_are_stable_for_identical_input_sequences() {
    let mut first = test_world();
    let mut second = test_world();
    let inputs = [
        HeadlessScriptedInput { frame: 0, action: "dash".to_owned(), state: "pressed".to_owned() },
        HeadlessScriptedInput { frame: 1, action: "dash".to_owned(), state: "released".to_owned() },
    ];

    for frame in 0..2 {
        first.apply_inputs(&inputs_at(&inputs, frame));
        second.apply_inputs(&inputs_at(&inputs, frame));
        first.step(frame);
        second.step(frame);
    }

    assert_eq!(records(&first), records(&second));
}

#[test]
fn tweak_packs_update_metrics_and_dirty_namespaces() {
    let mut world = test_world();
    let pack = TweakPack::new(TweakEntries::from_pairs(vec![
        ("combat.hitstop_scale".to_owned(), TweakValue::Scalar(0.35f32.to_bits())),
        ("player.camera_bob_enabled".to_owned(), TweakValue::Toggle(false)),
    ]));

    world.apply_tweak_pack(&pack).expect("tweak pack should apply");

    assert_eq!(metric(&world, "tweak.combat.hitstop_scale"), Some(0.35));
    assert_eq!(metric(&world, "tweak.player.camera_bob_enabled"), Some(0.0));
    assert_eq!(metric(&world, "tweaks.dirty_namespace_count"), Some(2.0));
    assert!(records(&world).iter().any(|record| record == "tweak_dirty:combat"));
    assert!(records(&world).iter().any(|record| record == "tweak_dirty:player"));
}

#[test]
fn world_records_list_counters_actors_tweaks_actions_and_log() {
    let seed = RootSeed::parse_hex("0xDEADBEEF").expect("seed should parse");
    let mut world = HeadlessScenarioWorld::new(
        30,
        seed,
        &[
            HeadlessActorSpawn { actor_id: "wraith".to_owned(), actor_kind: "wraith".to_owned(), seed_stream: None },
            HeadlessActorSpawn { actor_id: "player".to_owned(), actor_kind: "player_sword".to_owned(), seed_stream: Some("hero".to_owned()) },
        ],
    );
    assert_eq!(world.actor_count(), 2);
    assert_eq!(world.entity_count(), 2);
    assert_eq!(world.simulation_rate_hz(), 30);
    world.apply_inputs(&[
        HeadlessScriptedInput { frame: 3, action: "guard".to_owned(), state: "pressed".to_owned() },
        HeadlessScriptedInput { frame: 3, action: "dash".to_owned(), state: "pressed".to_owned() },
    ]);
    world.step(3);
    assert_eq!(world.frames_simulated(), 1);
    assert_eq!(world.applied_input_count(), 2);
    assert_eq!(world.active_action_count(), 2);
    assert_eq!(world.metric_value("world.active_action_count"), Some(MetricReading::Count(2)));
    assert_eq!(world.metric_value("startup.frame_count"), Some(MetricReading::Count(1)));
    assert_eq!(world.metric_value("world.actor_count"), Some(MetricReading::Count(2)));
    assert_eq!(world.metric_value("tweak.no.such_key"), None);
    assert_eq!(world.metric_value("tweak."), None);

    let lines = records(&world);
    assert_eq!(lines[0], "frames=1");
    assert_eq!(lines[1], "rate_hz=30");
    assert_eq!(lines[2], "applied_inputs=2");
    assert_eq!(lines[3], format!("actor:player:player_sword:{}", seed.derive_stream_hex("hero")));
    assert_eq!(lines[4], format!("actor:wraith:wraith:{}", seed.derive_stream_hex("wraith")));
    assert_eq!(lines[5], "tweak:world.wind_strength=0.350000");
    assert_eq!(lines[9], "tweak:player.camera_bob_enabled=true");
    assert_eq!(lines[13], "active_action:dash");
    assert_eq!(lines[14], "active_action:guard");
    assert_eq!(lines[15], "frame=3:input:guard:pressed");
    assert_eq!(lines[16], "frame=3:input:dash:pressed");
    assert_eq!(lines[17], "frame=3:step:1:30hz:2actions");
    assert_eq!(lines.len(), 18);

    world.apply_inputs(&[HeadlessScriptedInput { frame: 4, action: "guard".to_owned(), state: "released".to_owned() }]);
    world.step(4);
    assert_eq!(world.active_action_count(), 1);
    let pack = TweakPack::new(TweakEntries::from_pairs(vec![(
        "world.wind_strength".to_owned(),
        TweakValue::Scalar(0.5f32.to_bits()),
    )]));
    world.apply_tweak_pack(&pack).expect("pack applies");
    let lines = records(&world);
    assert_eq!(lines.last().map(String::as_str), Some("tweaks:applied:1:world"));
    assert!(world.tweak_registry().is_namespace_dirty(TweakNamespace::World));

    let bad = TweakPack::new(TweakEntries::from_pairs(vec![("nope".to_owned(), TweakValue::Toggle(true))]));
    assert_eq!(world.apply_tweak_pack(&bad), Err("unknown tweak key `nope`".to_owned()));
}
