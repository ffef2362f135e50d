use wrela::wr_world_gen::{
    EcologicalPlacementError, EcologicalPlacementKind, RedwoodForestGraphError, TerrainFieldError,
    TerrainFieldKind, depth_from_index, hash_coordinate, tree_seed,
};
use wrela::wr_world_seed::{RootSeed, stable_hash_u64_bytes};

#[test]
fn field_kind_names_stay_stable() {
    let names = TerrainFieldKind::all().iter().map(|field| field.as_str()).collect::<Vec<_>>();

    assert_eq!(
        names.join("\n"),
        "height\nslope\ndrainage\nmoisture\nfog\ncanopy_opportunity\ndeadfall_probability\nhero_path_bias"
    );
}

#[test]
fn world_gen_field_indices_follow_the_fixed_order() {
    for (index, kind) in TerrainFieldKind::all().into_iter().enumerate() {
        assert_eq!(kind.as_index(), index);
    }
}

#[test]
fn world_gen_placement_labels() {
    let kinds = EcologicalPlacementKind::all();
    assert_eq!(kinds.iter().map(|k| k.as_str()).collect::<Vec<_>>(), vec!["trunk", "understory", "deadfall_anchor"]);
    assert_eq!(EcologicalPlacementKind::DeadfallAnchor.score_label(), "ecology.deadfall.score");
    assert_eq!(EcologicalPlacementKind::Trunk.jitter_label(), "ecology.trunk.jitter");
    assert_eq!(EcologicalPlacementKind::Understory.orientation_label(), "ecology.understory.orientation");
    assert_eq!(EcologicalPlacementKind::Understory.as_index(), 1);
}

#[test]
fn world_gen_errors_render_their_reason() {
    assert_eq!(TerrainFieldError::invalid_config("resolution must be positive").to_string(), "resolution must be positive");
    assert_eq!(EcologicalPlacementError::invalid_config("bad spacing").to_string(), "bad spacing");
    assert_eq!(RedwoodForestGraphError::invalid_config("bad trees").to_string(), "bad trees");
}

#[test]
fn world_gen_hashes_are_fnv_over_big_endian_fields() {
    let root = RootSeed::parse_hex("0xDEADBEEF").expect("seed");
    let stream = root.derive_stream_u64("ecology.trunk.score");
    let mut bytes = stream.to_be_bytes().to_vec();
    bytes.extend_from_slice(&3u32.to_be_bytes());
    bytes.extend_from_slice(&4u32.to_be_bytes());
    bytes.extend_from_slice(&1u32.to_be_bytes());
    assert_eq!(hash_coordinate(root, "ecology.trunk.score", 3, 4, 1), stable_hash_u64_bytes(&bytes));

    let mut bytes = root.derive_stream_u64("trees.redwood").to_be_bytes().to_vec();
    bytes.extend_from_slice(&9u64.to_be_bytes());
    assert_eq!(tree_seed(root, 9).value(), stable_hash_u64_bytes(&bytes));
    assert_ne!(tree_seed(root, 9), tree_seed(root, 10));
}

#[test]
fn world_gen_depth_saturates() {
    assert_eq!(depth_from_index(7), 7);
    assert_eq!(depth_from_index(70_000), u16::MAX);
}
