use wrela::string_map::StringMap;
use wrela::wr_core::config_packs::SeedConfigPack;
use wrela::wr_world_seed::{
    RootSeed, SeedDerivationMode, SeedGraph, SeedRng, stable_hash_hex, stable_hash_hex_bytes,
    stable_hash_u64_bytes,
};

fn pack(name: &str, pairs: &[(&str, &str)]) -> SeedConfigPack {
    let overrides = StringMap::from_pairs(
        pairs.iter().map(|(key, value)| (key.to_string(), value.to_string())).collect(),
    );
    SeedConfigPack::new(name, overrides).expect("pack should validate")
}

#[test]
fn parses_hex_root_seed_values() {
    let seed = RootSeed::parse_hex("0xDEADBEEF").expect("seed should parse");

    assert_eq!(seed.value(), 0xDEADBEEF);
}

#[test]
fn derived_streams_are_stable() {
    let seed = RootSeed::parse_hex("0xDEADBEEF").expect("seed should parse");

    assert_eq!(seed.derive_stream_hex("player"), seed.derive_stream_hex("player"));
    assert_ne!(seed.derive_stream_hex("player"), seed.derive_stream_hex("enemy"));
}

#[test]
fn stable_hash_hex_uses_uppercase_zero_prefixed_output() {
    assert_eq!(stable_hash_hex(&[b"abc".to_vec()]), "0xE71FA2190541574B");
}

#[test]
fn seed_rng_is_repeatable_for_the_same_seed() {
    let root = RootSeed::parse_hex("0xDEADBEEF").expect("seed should parse");
    let mut first = SeedRng::new(root);
    let mut second = SeedRng::new(root);

    let first_values = (0..4).map(|_| first.next_u64()).collect::<Vec<_>>();
    let second_values = (0..4).map(|_| second.next_u64()).collect::<Vec<_>>();

    assert_eq!(first_values, second_values);
}

#[test]
fn standard_seed_graph_snapshot_is_stable() {
    let root = RootSeed::parse_hex("0xDEADBEEF").expect("seed should parse");
    let pack = pack("duel_focus", &[("combat.scenarios", "0xC0FFEE01")]);

    let graph = SeedGraph::standard(root, Some(&pack)).expect("graph should build");

    assert_eq!(graph.topology_version, "wr_seed_graph/v1");
    assert_eq!(graph.root_hex, "0x00000000DEADBEEF");
    assert_eq!(graph.config_pack_name, "duel_focus");
    assert_eq!(graph.overrides.len(), 1);
    assert_eq!(graph.overrides[0].path, "combat.scenarios");
    assert_eq!(graph.overrides[0].value_hex, "0x00000000C0FFEE01");
    let expected = [
        ("terrain", "terrain", None, "0xCA379F03C759982C", SeedDerivationMode::Derived),
        ("ecology", "ecology", None, "0x517C4643CB4ED25D", SeedDerivationMode::Derived),
        ("trees", "trees", None, "0x630977A9CD5352E4", SeedDerivationMode::Derived),
        ("wraiths", "wraiths", None, "0xBAB04A6CF613F1E5", SeedDerivationMode::Derived),
        ("combat", "combat", None, "0xA1F72785A5203293", SeedDerivationMode::Derived),
        (
            "combat.scenarios",
            "scenarios",
            Some("combat"),
            "0x00000000C0FFEE01",
            SeedDerivationMode::Override,
        ),
        ("vfx", "vfx", None, "0x3D55A2CCF0A62AA9", SeedDerivationMode::Derived),
    ];
    assert_eq!(graph.derivations.len(), expected.len());
    for (derivation, (path, label, parent, value_hex, mode)) in
        graph.derivations.iter().zip(expected.iter())
    {
        assert_eq!(derivation.path, *path);
        assert_eq!(derivation.label, *label);
        assert_eq!(derivation.parent_path.as_deref(), *parent);
        assert_eq!(derivation.value_hex, *value_hex);
        assert_eq!(derivation.mode, *mode);
    }
}

#[test]
fn overriding_one_branch_changes_only_that_branch_and_its_children() {
    let root = RootSeed::parse_hex("0xDEADBEEF").expect("seed should parse");
    let baseline = SeedGraph::standard(root, None).expect("graph should build");
    let pack = pack("terrain_override", &[("terrain", "0xF00DFACE")]);
    let overridden = SeedGraph::standard(root, Some(&pack)).expect("graph should build");

    for path in ["ecology", "trees", "wraiths", "combat", "combat.scenarios", "vfx"] {
        assert_eq!(
            baseline.seed_for_path(path),
            overridden.seed_for_path(path),
            "override path `{path}` should stay unchanged when terrain is overridden"
        );
    }

    assert_ne!(baseline.seed_for_path("terrain"), overridden.seed_for_path("terrain"));
}

#[test]
fn overriding_parent_branch_changes_child_branch_and_preserves_siblings() {
    let root = RootSeed::parse_hex("0xDEADBEEF").expect("seed should parse");
    let baseline = SeedGraph::standard(root, None).expect("graph should build");
    let pack = pack("combat_override", &[("combat", "0xF00DFACE")]);
    let overridden = SeedGraph::standard(root, Some(&pack)).expect("graph should build");

    for path in ["terrain", "ecology", "trees", "wraiths", "vfx"] {
        assert_eq!(
            baseline.seed_for_path(path),
            overridden.seed_for_path(path),
            "sibling branch `{path}` should remain stable when combat is overridden"
        );
    }

    assert_ne!(baseline.seed_for_path("combat"), overridden.seed_for_path("combat"));
    assert_ne!(baseline.seed_for_path("combat.scenarios"), overridden.seed_for_path("combat.scenarios"));
}

fn sample_generation_stats(graph: &SeedGraph) -> Vec<(String, u64)> {
    graph
        .derivations
        .iter()
        .map(|derivation| {
            let mut rng =
                SeedRng::new(graph.seed_for_path(&derivation.path).expect("seed path should exist"));
            (derivation.path.clone(), rng.next_u64())
        })
        .collect()
}

#[test]
fn same_seed_and_config_pack_produce_identical_generated_stats() {
    let root = RootSeed::parse_hex("0xDEADBEEF").expect("seed should parse");
    let pack = pack("duel_focus", &[("combat.scenarios", "0xC0FFEE01")]);
    let first =
        sample_generation_stats(&SeedGraph::standard(root, Some(&pack)).expect("graph should build"));
    let second =
        sample_generation_stats(&SeedGraph::standard(root, Some(&pack)).expect("graph should build"));

    assert_eq!(first, second);
}

#[test]
fn world_seed_hex_round_trips_and_rejects_bad_text() {
    let seed = RootSeed::parse_hex("  0xdeadbeef ").expect("lower case and blanks parse");
    assert_eq!(seed.to_hex(), "0x00000000DEADBEEF");
    assert_eq!(RootSeed::parse_hex(&seed.to_hex()).expect("round trip"), seed);
    assert!(RootSeed::parse_hex("DEADBEEF").is_err());
    assert!(RootSeed::parse_hex("0x").is_err());
    assert!(RootSeed::parse_hex("0xG1").is_err());
    assert!(RootSeed::parse_hex("0x1FFFFFFFFFFFFFFFF").is_err());
}

#[test]
fn world_seed_fnv_hashes_match_known_values() {
    assert_eq!(stable_hash_u64_bytes(b""), 0xcbf29ce484222325);
    assert_eq!(stable_hash_u64_bytes(b"abc"), 0xE71FA2190541574B);
    assert_eq!(stable_hash_hex_bytes(b"abc"), "0xE71FA2190541574B");
    assert_eq!(stable_hash_hex(&[b"a".to_vec(), b"bc".to_vec()]), "0xE71FA2190541574B");
}

#[test]
fn world_seed_unknown_override_path_is_refused() {
    let root = RootSeed::parse_hex("0x1").expect("seed should parse");
    let pack = pack("moon_pack", &[("moon", "0x2")]);
    let error = SeedGraph::standard(root, Some(&pack)).expect_err("unknown path");
    assert!(error.to_string().contains("moon"));
    let blank = StringMap::from_pairs(vec![("terrain".to_string(), " ".to_string())]);
    assert!(SeedConfigPack::new("blank_value", blank).is_err());
    assert!(SeedGraph::standard(root, None).is_ok());
}

#[test]
fn world_seed_rng_first_output_is_splitmix_of_the_incremented_seed() {
    let mut rng = SeedRng::new(RootSeed::parse_hex("0x0").expect("zero seed"));
    assert_eq!(rng.next_u64(), 0xE220A8397B1DCDAF);
}
