use vstd::prelude::*;

use crate::text::string_of;
use crate::wr_core::{CrateBoundary, CrateEntryPoint, entry_card};
use crate::wr_world_seed::{
    FNV_OFFSET_BASIS, RootSeed, be_bytes, fnv_hash, hex_string, lemma_parse_hex_text,
    stable_hash_u64_bytes, stream_seed,
};

verus! {

/// The entry point of the world generation crate: a subsystem, not integration-only.
pub fn init_entrypoint() -> (r: CrateEntryPoint)
    ensures
        entry_card(r, "wr_world_gen"@, CrateBoundary::Subsystem, false),
{
    CrateEntryPoint::new("wr_world_gen", CrateBoundary::Subsystem, false)
}

/// The scalar fields the terrain generator produces.
#[derive(Debug, Clone, Copy, PartialEq, Eq, PartialOrd, Ord, Hash, Structural)]
pub enum TerrainFieldKind {
    Height,
    Slope,
    Drainage,
    Moisture,
    Fog,
    CanopyOpportunity,
    DeadfallProbability,
    HeroPathBias,
}

/// The field kinds in their fixed order.
pub open spec fn field_kinds() -> Seq<TerrainFieldKind> {
    seq![
        TerrainFieldKind::Height,
        TerrainFieldKind::Slope,
        TerrainFieldKind::Drainage,
        TerrainFieldKind::Moisture,
        TerrainFieldKind::Fog,
        TerrainFieldKind::CanopyOpportunity,
        TerrainFieldKind::DeadfallProbability,
        TerrainFieldKind::HeroPathBias,
    ]
}

/// The position of a field kind in the fixed order.
pub open spec fn field_index(k: TerrainFieldKind) -> nat {
    match k {
        TerrainFieldKind::Height => 0,
        TerrainFieldKind::Slope => 1,
        TerrainFieldKind::Drainage => 2,
        TerrainFieldKind::Moisture => 3,
        TerrainFieldKind::Fog => 4,
        TerrainFieldKind::CanopyOpportunity => 5,
        TerrainFieldKind::DeadfallProbability => 6,
        TerrainFieldKind::HeroPathBias => 7,
    }
}

/// The stable name of a field kind.
pub open spec fn field_name(k: TerrainFieldKind) -> Seq<char> {
    match k {
        TerrainFieldKind::Height => "height"@,
        TerrainFieldKind::Slope => "slope"@,
        TerrainFieldKind::Drainage => "drainage"@,
        TerrainFieldKind::Moisture => "moisture"@,
        TerrainFieldKind::Fog => "fog"@,
        TerrainFieldKind::CanopyOpportunity => "canopy_opportunity"@,
        TerrainFieldKind::DeadfallProbability => "deadfall_probability"@,
        TerrainFieldKind::HeroPathBias => "hero_path_bias"@,
    }
}

impl TerrainFieldKind {
    /// Every field kind, in the fixed order.
    pub fn all() -> (r: Vec<TerrainFieldKind>)
        ensures
            r@ == field_kinds(),
    {
        let r = vec![
            TerrainFieldKind::Height,
            TerrainFieldKind::Slope,
            TerrainFieldKind::Drainage,
            TerrainFieldKind::Moisture,
            TerrainFieldKind::Fog,
            TerrainFieldKind::CanopyOpportunity,
            TerrainFieldKind::DeadfallProbability,
            TerrainFieldKind::HeroPathBias,
        ];
        assert(r@ =~= field_kinds());
        r
    }

    /// The kind's position in the fixed order.
    pub fn as_index(self) -> (r: usize)
        ensures
            r == field_index(self),
    {
        match self {
            TerrainFieldKind::Height => 0,
            TerrainFieldKind::Slope => 1,
            TerrainFieldKind::Drainage => 2,
            TerrainFieldKind::Moisture => 3,
            TerrainFieldKind::Fog => 4,
            TerrainFieldKind::CanopyOpportunity => 5,
            TerrainFieldKind::DeadfallProbability => 6,
            TerrainFieldKind::HeroPathBias => 7,
        }
    }

    /// The kind's stable name.
    pub fn as_str(self) -> (r: &'static str)
        ensures
            r@ == field_name(self),
    {
        match self {
            TerrainFieldKind::Height => "height",
            TerrainFieldKind::Slope => "slope",
            TerrainFieldKind::Drainage => "drainage",
            TerrainFieldKind::Moisture => "moisture",
            TerrainFieldKind::Fog => "fog",
            TerrainFieldKind::CanopyOpportunity => "canopy_opportunity",
            TerrainFieldKind::DeadfallProbability => "deadfall_probability",
            TerrainFieldKind::HeroPathBias => "hero_path_bias",
        }
    }
}

/// Every field kind sits in the fixed order at its own index, so the index is a bijection
/// between the kinds and `0..8`, and no two kinds share a name.
pub proof fn lemma_field_kind_order(k: TerrainFieldKind, j: TerrainFieldKind)
    ensures
        field_index(k) < field_kinds().len(),
        field_kinds()[field_index(k) as int] == k,
        field_kinds().len() == 8,
        k != j ==> field_name(k) != field_name(j),
{
    reveal_strlit("height");
    reveal_strlit("slope");
    reveal_strlit("drainage");
    reveal_strlit("moisture");
    reveal_strlit("fog");
    reveal_strlit("canopy_opportunity");
    reveal_strlit("deadfall_probability");
    reveal_strlit("hero_path_bias");
    if k != j && field_name(k).len() == field_name(j).len() {
        assert(field_name(k)[0] != field_name(j)[0] || field_name(k)[1] != field_name(j)[1]);
    }
}

/// An RGBA overlay picture of one field.
#[derive(Debug, Clone, PartialEq, Eq)]
pub struct TerrainFieldOverlay {
    pub field: TerrainFieldKind,
    pub width: u16,
    pub height: u16,
    pub rgba8: Vec<u8>,
}

/// Why a terrain field configuration was refused.
#[derive(Debug, Clone, PartialEq, Eq)]
pub struct TerrainFieldError {
    reason: String,
}

impl View for TerrainFieldError {
    type V = Seq<char>;

    closed spec fn view(&self) -> Seq<char> {
        self.reason@
    }
}

impl TerrainFieldError {
    /// An error for an invalid configuration, with its reason.
    pub fn invalid_config(reason: &str) -> (r: Self)
        ensures
            r@ == reason@,
    {
        TerrainFieldError { reason: string_of(reason) }
    }

    /// The error's message: its reason.
    pub fn to_string(&self) -> (r: String)
        ensures
            r@ == self@,
    {
        string_of(self.reason.as_str())
    }
}

/// The kinds of things the ecology pass places.
#[derive(Debug, Clone, Copy, PartialEq, Eq, PartialOrd, Ord, Hash, Structural)]
pub enum EcologicalPlacementKind {
    Trunk,
    Understory,
    DeadfallAnchor,
}

/// The stable name of a placement kind.
pub open spec fn placement_name(k: EcologicalPlacementKind) -> Seq<char> {
    match k {
        EcologicalPlacementKind::Trunk => "trunk"@,
        EcologicalPlacementKind::Understory => "understory"@,
        EcologicalPlacementKind::DeadfallAnchor => "deadfall_anchor"@,
    }
}

/// The short name used in a placement kind's hash labels.
pub open spec fn placement_label_stem(k: EcologicalPlacementKind) -> Seq<char> {
    match k {
        EcologicalPlacementKind::Trunk => "ecology.trunk"@,
        EcologicalPlacementKind::Understory => "ecology.understory"@,
        EcologicalPlacementKind::DeadfallAnchor => "ecology.deadfall"@,
    }
}

impl EcologicalPlacementKind {
    /// Every placement kind, in the fixed order.
    pub fn all() -> (r: Vec<EcologicalPlacementKind>)
        ensures
            r@ == seq![
                EcologicalPlacementKind::Trunk,
                EcologicalPlacementKind::Understory,
                EcologicalPlacementKind::DeadfallAnchor,
            ],
    {
        let r = vec![
            EcologicalPlacementKind::Trunk,
            EcologicalPlacementKind::Understory,
            EcologicalPlacementKind::DeadfallAnchor,
        ];
        assert(r@ =~= seq![
            EcologicalPlacementKind::Trunk,
            EcologicalPlacementKind::Understory,
            EcologicalPlacementKind::DeadfallAnchor,
        ]);
        r
    }

    /// The kind's stable name.
    pub fn as_str(self) -> (r: &'static str)
        ensures
            r@ == placement_name(self),
    {
        match self {
            EcologicalPlacementKind::Trunk => "trunk",
            EcologicalPlacementKind::Understory => "understory",
            EcologicalPlacementKind::DeadfallAnchor => "deadfall_anchor",
        }
    }

    /// The kind's position in the fixed order.
    pub fn as_index(self) -> (r: usize)
        ensures
            r == match self {
                EcologicalPlacementKind::Trunk => 0usize,
                EcologicalPlacementKind::Understory => 1usize,
                EcologicalPlacementKind::DeadfallAnchor => 2usize,
            },
    {
        match self {
            EcologicalPlacementKind::Trunk => 0,
            EcologicalPlacementKind::Understory => 1,
            EcologicalPlacementKind::DeadfallAnchor => 2,
        }
    }

    /// The hash label of the kind's placement score.
    pub fn score_label(self) -> (r: &'static str)
        ensures
            r@ == placement_label_stem(self) + ".score"@,
    {
        let r = match self {
            EcologicalPlacementKind::Trunk => "ecology.trunk.score",
            EcologicalPlacementKind::Understory => "ecology.understory.score",
            EcologicalPlacementKind::DeadfallAnchor => "ecology.deadfall.score",
        };
        proof {
            reveal_strlit("ecology.trunk.score");
            reveal_strlit("ecology.understory.score");
            reveal_strlit("ecology.deadfall.score");
            reveal_strlit("ecology.trunk");
            reveal_strlit("ecology.understory");
            reveal_strlit("ecology.deadfall");
            reveal_strlit(".score");
            assert(r@ =~= placement_label_stem(self) + ".score"@);
        }
        r
    }

    /// The hash label of the kind's position jitter.
    pub fn jitter_label(self) -> (r: &'static str)
        ensures
            r@ == placement_label_stem(self) + ".jitter"@,
    {
        let r = match self {
            EcologicalPlacementKind::Trunk => "ecology.trunk.jitter",
            EcologicalPlacementKind::Understory => "ecology.understory.jitter",
            EcologicalPlacementKind::DeadfallAnchor => "ecology.deadfall.jitter",
        };
        proof {
            reveal_strlit("ecology.trunk.jitter");
            reveal_strlit("ecology.understory.jitter");
            reveal_strlit("ecology.deadfall.jitter");
            reveal_strlit("ecology.trunk");
            reveal_strlit("ecology.understory");
            reveal_strlit("ecology.deadfall");
            reveal_strlit(".jitter");
            assert(r@ =~= placement_label_stem(self) + ".jitter"@);
        }
        r
    }

    /// The hash label of the kind's orientation.
    pub fn orientation_label(self) -> (r: &'static str)
        ensures
            r@ == placement_label_stem(self) + ".orientation"@,
    {
        let r = match self {
            EcologicalPlacementKind::Trunk => "ecology.trunk.orientation",
            EcologicalPlacementKind::Understory => "ecology.understory.orientation",
            EcologicalPlacementKind::DeadfallAnchor => "ecology.deadfall.orientation",
        };
        proof {
            reveal_strlit("ecology.trunk.orientation");
            reveal_strlit("ecology.understory.orientation");
            reveal_strlit("ecology.deadfall.orientation");
            reveal_strlit("ecology.trunk");
            reveal_strlit("ecology.understory");
            reveal_strlit("ecology.deadfall");
            reveal_strlit(".orientation");
            assert(r@ =~= placement_label_stem(self) + ".orientation"@);
        }
        r
    }
}

/// Why an ecology placement configuration was refused.
#[derive(Debug, Clone, PartialEq, Eq)]
pub struct EcologicalPlacementError {
    reason: String,
}

impl View for EcologicalPlacementError {
    type V = Seq<char>;

    closed spec fn view(&self) -> Seq<char> {
        self.reason@
    }
}

impl EcologicalPlacementError {
    /// An error for an invalid configuration, with its reason.
    pub fn invalid_config(reason: &str) -> (r: Self)
        ensures
            r@ == reason@,
    {
        EcologicalPlacementError { reason: string_of(reason) }
    }

    /// The error's message: its reason.
    pub fn to_string(&self) -> (r: String)
        ensures
            r@ == self@,
    {
        string_of(self.reason.as_str())
    }
}

/// Why a redwood forest graph configuration was refused.
#[derive(Debug, Clone, PartialEq, Eq)]
pub struct RedwoodForestGraphError {
    reason: String,
}

impl View for RedwoodForestGraphError {
    type V = Seq<char>;

    closed spec fn view(&self) -> Seq<char> {
        self.reason@
    }
}

impl RedwoodForestGraphError {
    /// An error for an invalid configuration, with its reason.
    pub fn invalid_config(reason: &str) -> (r: Self)
        ensures
            r@ == reason@,
    {
        RedwoodForestGraphError { reason: string_of(reason) }
    }

    /// The error's message: its reason.
    pub fn to_string(&self) -> (r: String)
        ensures
            r@ == self@,
    {
        string_of(self.reason.as_str())
    }
}

/// The big-endian bytes of a 32-bit value.
pub open spec fn be_bytes32(v: u32) -> Seq<u8> {
    Seq::new(4, |i: int| (v >> ((24 - 8 * i) as u32)) as u8)
}

fn push_be_u64(bytes: &mut Vec<u8>, v: u64)
    ensures
        final(bytes)@ == old(bytes)@ + be_bytes(v),
{
    let ghost start = bytes@;
    let mut i: u64 = 0;
    while i < 8
        invariant
            i <= 8,
            bytes@ == start + be_bytes(v).subrange(0, i as int),
        decreases 8 - i,
    {
        bytes.push((v >> (56 - 8 * i)) as u8);
        i = i + 1;
        assert(bytes@ =~= start + be_bytes(v).subrange(0, i as int));
    }
    assert(be_bytes(v).subrange(0, 8) =~= be_bytes(v));
}

fn push_be_u32(bytes: &mut Vec<u8>, v: u32)
    ensures
        final(bytes)@ == old(bytes)@ + be_bytes32(v),
{
    let ghost start = bytes@;
    let mut i: u32 = 0;
    while i < 4
        invariant
            i <= 4,
            bytes@ == start + be_bytes32(v).subrange(0, i as int),
        decreases 4 - i,
    {
        bytes.push((v >> (24 - 8 * i)) as u8);
        i = i + 1;
        assert(bytes@ =~= start + be_bytes32(v).subrange(0, i as int));
    }
    assert(be_bytes32(v).subrange(0, 4) =~= be_bytes32(v));
}

/// The hash of a grid cell under a labelled stream: FNV-1a over the stream's seed, then the
/// column, row and axis, each big-endian.
pub open spec fn coordinate_hash(root: u64, label: Seq<char>, column: u32, row: u32, axis: u32) -> u64 {
    fnv_hash(
        FNV_OFFSET_BASIS,
        be_bytes(stream_seed(root, label)) + be_bytes32(column) + be_bytes32(row) + be_bytes32(
            axis,
        ),
    )
}

/// The hash of a grid cell under a labelled stream, as `coordinate_hash` describes.
pub fn hash_coordinate(root_seed: RootSeed, label: &str, column: u32, row: u32, axis: u32) -> (r:
    u64)
    ensures
        r == coordinate_hash(root_seed@, label@, column, row, axis),
{
    let mut bytes: Vec<u8> = Vec::new();
    push_be_u64(&mut bytes, root_seed.derive_stream_u64(label));
    push_be_u32(&mut bytes, column);
    push_be_u32(&mut bytes, row);
    push_be_u32(&mut bytes, axis);
    stable_hash_u64_bytes(bytes.as_slice())
}

/// The seed of the tree at `tree_index`: FNV-1a over the seed of the `trees.redwood` stream
/// followed by the index, both big-endian.
pub open spec fn tree_seed_value(root: u64, tree_index: u64) -> u64 {
    fnv_hash(FNV_OFFSET_BASIS, be_bytes(stream_seed(root, "trees.redwood"@)) + be_bytes(tree_index))
}

/// The seed of the tree at `tree_index`, as `tree_seed_value` describes.
pub fn tree_seed(root_seed: RootSeed, tree_index: u64) -> (r: RootSeed)
    ensures
        r@ == tree_seed_value(root_seed@, tree_index),
{
    let mut bytes: Vec<u8> = Vec::new();
    push_be_u64(&mut bytes, root_seed.derive_stream_u64("trees.redwood"));
    push_be_u64(&mut bytes, tree_index);
    let hash = stable_hash_u64_bytes(bytes.as_slice());
    let text = hex_string(hash);
    proof {
        lemma_parse_hex_text(hash);
    }
    match RootSeed::parse_hex(text.as_str()) {
        Ok(seed) => seed,
        Err(_) => root_seed,
    }
}

/// A node's depth from its index, saturating at `u16::MAX`.
pub fn depth_from_index(index: usize) -> (r: u16)
    ensures
        r == (if index <= u16::MAX {
            index as u16
        } else {
            u16::MAX
        }),
{
    if index <= 65535 {
        index as u16
    } else {
        65535
    }
}

} // verus!
