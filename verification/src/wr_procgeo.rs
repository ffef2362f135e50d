use vstd::prelude::*;

use crate::text::{decimal, push_decimal, push_str, string_of};
use crate::wr_core::{CrateBoundary, CrateEntryPoint, entry_card};

verus! {

/// The entry point of the procedural geometry crate: a subsystem, not integration-only.
pub fn init_entrypoint() -> (r: CrateEntryPoint)
    ensures
        entry_card(r, "wr_procgeo"@, CrateBoundary::Subsystem, false),
{
    CrateEntryPoint::new("wr_procgeo", CrateBoundary::Subsystem, false)
}

/// The level of detail of a redwood mesh.
#[derive(Debug, Clone, Copy, PartialEq, Eq, Structural)]
pub enum RedwoodMeshLodTier {
    Hero,
    Mid,
    Far,
}

/// The position of a level of detail, nearest first.
pub open spec fn lod_index(t: RedwoodMeshLodTier) -> nat {
    match t {
        RedwoodMeshLodTier::Hero => 0,
        RedwoodMeshLodTier::Mid => 1,
        RedwoodMeshLodTier::Far => 2,
    }
}

/// The levels of detail, nearest first.
pub open spec fn lod_tiers() -> Seq<RedwoodMeshLodTier> {
    seq![RedwoodMeshLodTier::Hero, RedwoodMeshLodTier::Mid, RedwoodMeshLodTier::Far]
}

impl RedwoodMeshLodTier {
    /// Every level of detail, nearest first.
    pub fn all() -> (r: Vec<RedwoodMeshLodTier>)
        ensures
            r@ == lod_tiers(),
    {
        let r = vec![RedwoodMeshLodTier::Hero, RedwoodMeshLodTier::Mid, RedwoodMeshLodTier::Far];
        assert(r@ =~= lod_tiers());
        r
    }

    /// The tier's position, nearest first.
    pub fn as_index(self) -> (r: usize)
        ensures
            r == lod_index(self),
            lod_tiers()[r as int] == self,
    {
        match self {
            RedwoodMeshLodTier::Hero => 0,
            RedwoodMeshLodTier::Mid => 1,
            RedwoodMeshLodTier::Far => 2,
        }
    }

    /// The tier's stable name.
    pub fn as_str(self) -> (r: &'static str)
        ensures
            r@ == match self {
                RedwoodMeshLodTier::Hero => "hero"@,
                RedwoodMeshLodTier::Mid => "mid"@,
                RedwoodMeshLodTier::Far => "far"@,
            },
    {
        match self {
            RedwoodMeshLodTier::Hero => "hero",
            RedwoodMeshLodTier::Mid => "mid",
            RedwoodMeshLodTier::Far => "far",
        }
    }
}

/// Why a redwood mesh configuration was refused.
#[derive(Debug, Clone, PartialEq, Eq)]
pub struct RedwoodMeshBuildError {
    message: String,
}

impl View for RedwoodMeshBuildError {
    type V = Seq<char>;

    closed spec fn view(&self) -> Seq<char> {
        self.message@
    }
}

impl RedwoodMeshBuildError {
    /// An error for an invalid configuration, with its message.
    pub fn invalid_config(message: &str) -> (r: Self)
        ensures
            r@ == message@,
    {
        RedwoodMeshBuildError { message: string_of(message) }
    }

    /// The error's message.
    pub fn to_string(&self) -> (r: String)
        ensures
            r@ == self@,
    {
        string_of(self.message.as_str())
    }
}

/// Why a foliage configuration was refused.
#[derive(Debug, Clone, PartialEq, Eq)]
pub enum RedwoodFoliageBuildError {
    InvalidConfig(String),
}

impl RedwoodFoliageBuildError {
    /// An error for an invalid configuration, with its message.
    pub fn invalid_config(message: &str) -> (r: Self)
        ensures
            r matches RedwoodFoliageBuildError::InvalidConfig(m) && m@ == message@,
    {
        RedwoodFoliageBuildError::InvalidConfig(string_of(message))
    }

    /// The error's message.
    pub fn to_string(&self) -> (r: String)
        ensures
            r@ == match self {
                RedwoodFoliageBuildError::InvalidConfig(m) => "invalid foliage build config: "@
                    + m@,
            },
    {
        match self {
            RedwoodFoliageBuildError::InvalidConfig(m) => {
                let mut r = string_of("invalid foliage build config: ");
                push_str(&mut r, m.as_str());
                r
            },
        }
    }
}

/// The foliage a forest may draw at each level of detail.
#[derive(Debug, Clone, Copy, PartialEq, Eq)]
pub struct RedwoodFoliageBudget {
    pub max_total_cards_per_lod: [u32; 3],
    pub max_total_vertices_per_lod: [u32; 3],
    pub max_draw_calls_per_lod: [u8; 3],
}

/// What a foliage report counts at one level of detail.
#[derive(Debug, Clone, Copy, PartialEq, Eq, Structural)]
pub struct FoliageLodCounts {
    pub card_count: u32,
    pub vertex_count: u32,
    pub estimated_draw_calls: u8,
}

/// Whether counts stay within a budget: cards and vertices at every level, draw calls at the
/// hero and mid levels.
pub open spec fn foliage_within_budget(b: RedwoodFoliageBudget, lods: [FoliageLodCounts; 3]) -> bool {
    &&& lods[0].card_count <= b.max_total_cards_per_lod[0]
    &&& lods[1].card_count <= b.max_total_cards_per_lod[1]
    &&& lods[2].card_count <= b.max_total_cards_per_lod[2]
    &&& lods[0].vertex_count <= b.max_total_vertices_per_lod[0]
    &&& lods[1].vertex_count <= b.max_total_vertices_per_lod[1]
    &&& lods[2].vertex_count <= b.max_total_vertices_per_lod[2]
    &&& lods[0].estimated_draw_calls <= b.max_draw_calls_per_lod[0]
    &&& lods[1].estimated_draw_calls <= b.max_draw_calls_per_lod[1]
}

impl RedwoodFoliageBudget {
    /// Whether a report's counts stay within the budget, as `foliage_within_budget` says.
    pub fn within(self, lods: &[FoliageLodCounts; 3]) -> (r: bool)
        ensures
            r == foliage_within_budget(self, *lods),
    {
        lods[0].card_count <= self.max_total_cards_per_lod[0] && lods[1].card_count
            <= self.max_total_cards_per_lod[1] && lods[2].card_count
            <= self.max_total_cards_per_lod[2] && lods[0].vertex_count
            <= self.max_total_vertices_per_lod[0] && lods[1].vertex_count
            <= self.max_total_vertices_per_lod[1] && lods[2].vertex_count
            <= self.max_total_vertices_per_lod[2] && lods[0].estimated_draw_calls
            <= self.max_draw_calls_per_lod[0] && lods[1].estimated_draw_calls
            <= self.max_draw_calls_per_lod[1]
    }
}

impl Default for RedwoodFoliageBudget {
    fn default() -> (r: Self)
        ensures
            r.max_total_cards_per_lod@ == seq![6200u32, 5000, 4000],
            r.max_total_vertices_per_lod@ == seq![24800u32, 20000, 16000],
            r.max_draw_calls_per_lod@ == seq![1u8, 1, 1],
    {
        let r = RedwoodFoliageBudget {
            max_total_cards_per_lod: [6200, 5000, 4000],
            max_total_vertices_per_lod: [24800, 20000, 16000],
            max_draw_calls_per_lod: [1, 1, 1],
        };
        assert(r.max_total_cards_per_lod@ =~= seq![6200u32, 5000, 4000]);
        assert(r.max_total_vertices_per_lod@ =~= seq![24800u32, 20000, 16000]);
        assert(r.max_draw_calls_per_lod@ =~= seq![1u8, 1, 1]);
        r
    }
}

/// Foliage material parameters packed into two words.
#[derive(Debug, Clone, Copy, PartialEq, Eq)]
pub struct RedwoodFoliageMaterialPacking {
    pub words: [u32; 2],
}

/// The position of a terrain chunk in the chunk grid.
#[derive(Debug, Clone, Copy, PartialEq, Eq, PartialOrd, Ord, Structural)]
pub struct TerrainChunkCoord {
    pub x: u16,
    pub y: u16,
}

impl TerrainChunkCoord {
    /// The chunk at column `x`, row `y`.
    pub fn new(x: u16, y: u16) -> (r: Self)
        ensures
            r == (TerrainChunkCoord { x, y }),
    {
        TerrainChunkCoord { x, y }
    }
}

/// How finely the terrain mesh is cut into chunks.
#[derive(Debug, Clone, Copy, PartialEq, Eq, Structural)]
pub struct TerrainMeshBuildConfig {
    pub chunk_resolution: u16,
}

/// Why a chunk resolution is refused for a terrain of resolution `cache_resolution`: zero, or
/// not smaller than the terrain.
pub open spec fn chunk_resolution_error(chunk_resolution: u16, cache_resolution: u16) -> Option<
    Seq<char>,
> {
    if chunk_resolution == 0 {
        Some("chunk_resolution must be greater than zero"@)
    } else if chunk_resolution >= cache_resolution {
        Some("chunk_resolution "@ + decimal(chunk_resolution as nat)
            + " must be smaller than terrain resolution "@ + decimal(cache_resolution as nat))
    } else {
        None
    }
}

impl TerrainMeshBuildConfig {
    /// A configuration with the given chunk resolution.
    pub fn new(chunk_resolution: u16) -> (r: Self)
        ensures
            r.chunk_resolution == chunk_resolution,
    {
        TerrainMeshBuildConfig { chunk_resolution }
    }

    /// The configuration itself when its chunk resolution suits a terrain of resolution
    /// `cache_resolution`, as `chunk_resolution_error` describes.
    pub fn validate(self, cache_resolution: u16) -> (r: Result<Self, String>)
        ensures
            match chunk_resolution_error(self.chunk_resolution, cache_resolution) {
                Some(m) => r matches Err(e) && e@ == m,
                None => r == Ok::<Self, String>(self),
            },
    {
        if self.chunk_resolution == 0 {
            return Err(string_of("chunk_resolution must be greater than zero"));
        }
        if self.chunk_resolution >= cache_resolution {
            let mut m = string_of("chunk_resolution ");
            push_decimal(&mut m, self.chunk_resolution as u64);
            push_str(&mut m, " must be smaller than terrain resolution ");
            push_decimal(&mut m, cache_resolution as u64);
            return Err(m);
        }
        Ok(self)
    }
}

impl Default for TerrainMeshBuildConfig {
    fn default() -> (r: Self)
        ensures
            r.chunk_resolution == 16,
    {
        TerrainMeshBuildConfig { chunk_resolution: 16 }
    }
}

/// How many chunks of `chunk_resolution` quads cover `total_quads` quads (the last may be
/// narrower).
pub open spec fn chunk_count(total_quads: nat, chunk_resolution: nat) -> nat {
    ((total_quads + chunk_resolution - 1) / (chunk_resolution as int)) as nat
}

/// The chunks a side of a terrain of `total_quads` quads is cut into.
pub fn terrain_chunk_count(total_quads: u16, chunk_resolution: u16) -> (r: u16)
    requires
        chunk_resolution > 0,
    ensures
        r == chunk_count(total_quads as nat, chunk_resolution as nat),
{
    let sum: u32 = total_quads as u32 + chunk_resolution as u32 - 1;
    let res: u32 = chunk_resolution as u32;
    let n: u32 = sum / res;
    assert(n <= total_quads) by (nonlinear_arith)
        requires
            res >= 1,
            sum == total_quads + res - 1,
            n == sum / res,
    {
        if total_quads == 0 {
        } else {
            assert(sum <= total_quads * res);
        }
    }
    n as u16
}

/// The first quad and the width in quads of chunk `chunk` along one side: chunks are
/// `chunk_resolution` quads wide, and the last one takes what is left.
pub fn terrain_chunk_span(total_quads: u16, chunk_resolution: u16, chunk: u16) -> (r: (u16, u16))
    requires
        chunk_resolution > 0,
        chunk < chunk_count(total_quads as nat, chunk_resolution as nat),
    ensures
        r.0 == chunk * chunk_resolution,
        r.0 < total_quads,
        r.1 == if total_quads - r.0 < chunk_resolution {
            total_quads - r.0
        } else {
            chunk_resolution as int
        },
{
    assert(chunk * chunk_resolution < total_quads) by (nonlinear_arith)
        requires
            chunk_resolution > 0,
            chunk < (total_quads + chunk_resolution - 1) / (chunk_resolution as int),
    {
        assert((chunk + 1) * chunk_resolution <= total_quads + chunk_resolution - 1);
    }
    let start = chunk * chunk_resolution;
    let left = total_quads - start;
    let width = if left < chunk_resolution {
        left
    } else {
        chunk_resolution
    };
    (start, width)
}

/// The six corner indices of the quad whose top left vertex is `top_left`, in a chunk whose
/// vertex rows are `width` vertices long: two triangles split along the diagonal that the
/// quad's parity picks, so that diagonals alternate across the terrain.
pub open spec fn quad_corners(top_left: int, width: int, flips: bool) -> Seq<int> {
    let top_right = top_left + 1;
    let bottom_left = top_left + width;
    let bottom_right = bottom_left + 1;
    if flips {
        seq![top_left, bottom_left, bottom_right, top_left, bottom_right, top_right]
    } else {
        seq![top_left, bottom_left, top_right, top_right, bottom_left, bottom_right]
    }
}

/// Corner `j` of quad `q` of a chunk `quads_wide` quads wide whose first quad is
/// (`start_x`, `start_y`) on the terrain: quads run row by row, and a quad flips its diagonal
/// when its terrain column plus row is odd.
pub open spec fn chunk_index_at(start_x: int, start_y: int, quads_wide: int, q: int, j: int) -> int {
    let row = q / quads_wide;
    let column = q % quads_wide;
    quad_corners(
        row * (quads_wide + 1) + column,
        quads_wide + 1,
        (start_x + column + start_y + row) % 2 == 1,
    )[j]
}

fn push_quad(r: &mut Vec<u32>, top_left: u32, width: u32, flips: bool)
    requires
        top_left + width + 1 <= u32::MAX,
    ensures
        final(r)@.len() == old(r)@.len() + 6,
        forall|k: int| 0 <= k < old(r)@.len() ==> final(r)@[k] == old(r)@[k],
        forall|j: int|
            0 <= j < 6 ==> final(r)@[old(r)@.len() + j] == quad_corners(
                top_left as int,
                width as int,
                flips,
            )[j],
{
    let top_right = top_left + 1;
    let bottom_left = top_left + width;
    let bottom_right = bottom_left + 1;
    if flips {
        r.push(top_left);
        r.push(bottom_left);
        r.push(bottom_right);
        r.push(top_left);
        r.push(bottom_right);
        r.push(top_right);
    } else {
        r.push(top_left);
        r.push(bottom_left);
        r.push(top_right);
        r.push(top_right);
        r.push(bottom_left);
        r.push(bottom_right);
    }
}

/// The triangle indices of a terrain chunk `quads_wide` by `quads_tall` quads whose first quad
/// is (`start_x`, `start_y`): six per quad, row by row, into the chunk's own vertices, which run
/// row by row `quads_wide + 1` to a row; every index names one of the chunk's vertices.
pub fn terrain_chunk_indices(start_x: u16, start_y: u16, quads_wide: u16, quads_tall: u16) -> (r:
    Vec<u32>)
    ensures
        r@.len() == quads_wide * quads_tall * 6,
        forall|k: int| 0 <= k < r@.len() ==> #[trigger] r@[k] < (quads_wide + 1) * (quads_tall + 1),
        forall|q: int, j: int|
            0 <= q < quads_wide * quads_tall && 0 <= j < 6 ==> r@[6 * q + j] == chunk_index_at(
                start_x as int,
                start_y as int,
                quads_wide as int,
                q,
                j,
            ),
{
    let mut r: Vec<u32> = Vec::new();
    let width: u32 = quads_wide as u32 + 1;
    let mut row: u16 = 0;
    while row < quads_tall
        invariant
            row <= quads_tall,
            width == quads_wide + 1,
            r@.len() == 6 * (row * quads_wide),
            forall|k: int| 0 <= k < r@.len() ==> #[trigger] r@[k] < (quads_wide + 1) * (quads_tall + 1),
            forall|q: int, j: int|
                0 <= q < row * quads_wide && 0 <= j < 6 ==> #[trigger] r@[6 * q + j] == chunk_index_at(
                    start_x as int,
                    start_y as int,
                    quads_wide as int,
                    q,
                    j,
                ),
        decreases quads_tall - row,
    {
        let mut column: u16 = 0;
        while column < quads_wide
            invariant
                row < quads_tall,
                column <= quads_wide,
                width == quads_wide + 1,
                r@.len() == 6 * (row * quads_wide + column),
                forall|k: int| 0 <= k < r@.len() ==> #[trigger] r@[k] < (quads_wide + 1) * (quads_tall + 1),
                forall|q: int, j: int|
                    0 <= q < row * quads_wide + column && 0 <= j < 6 ==> #[trigger] r@[6 * q + j]
                        == chunk_index_at(
                        start_x as int,
                        start_y as int,
                        quads_wide as int,
                        q,
                        j,
                    ),
            decreases quads_wide - column,
        {
            let ghost q = row * quads_wide + column;
            assert((row + 1) * (quads_wide + 1) <= (quads_tall as int) * (quads_wide + 1)) by (nonlinear_arith)
                requires
                    row < quads_tall,
            ;
            assert((quads_tall as int) * (quads_wide + 1) <= 65535 * 65536) by (nonlinear_arith)
                requires
                    quads_tall <= 65535,
                    quads_wide <= 65535,
            ;
            assert(row * (quads_wide + 1) + column + (quads_wide + 1) + 1 <= (row + 1) * (quads_wide + 1) + quads_wide + 1) by (nonlinear_arith)
                requires
                    column < quads_wide,
            ;
            assert((row + 1) * (quads_wide + 1) + quads_wide < (quads_wide + 1) * (quads_tall + 1)) by (nonlinear_arith)
                requires
                    row < quads_tall,
            ;
            let top_left: u32 = row as u32 * width + column as u32;
            let flips = (start_x as u32 + column as u32 + start_y as u32 + row as u32) % 2 == 1;
            let ghost before = r@;
            push_quad(&mut r, top_left, width, flips);
            proof {
                vstd::arithmetic::div_mod::lemma_fundamental_div_mod_converse(
                    q,
                    quads_wide as int,
                    row as int,
                    column as int,
                );
                assert(row * quads_wide == quads_wide * row) by (nonlinear_arith);
                assert forall|qq: int, j: int|
                    0 <= qq < q + 1 && 0 <= j < 6 implies #[trigger] r@[6 * qq + j] == chunk_index_at(
                        start_x as int,
                        start_y as int,
                        quads_wide as int,
                        qq,
                        j,
                    ) by {
                    if qq < q {
                        assert(r@[6 * qq + j] == before[6 * qq + j]);
                    } else {
                        assert(6 * qq + j == before.len() + j);
                    }
                }
                assert((row + 1) * (quads_wide + 1) == row * (quads_wide + 1) + quads_wide + 1)
                    by (nonlinear_arith);
                assert(top_left == row * (quads_wide + 1) + column);
                assert(top_left + width + 1 < (quads_wide + 1) * (quads_tall + 1));
                assert forall|k: int| 0 <= k < r@.len() implies #[trigger] r@[k] < (quads_wide + 1) * (
                quads_tall + 1) by {
                    if k < before.len() {
                        assert(r@[k] == before[k]);
                    } else {
                        assert(r@[k] == quad_corners(top_left as int, width as int, flips)[k - before.len()]);
                    }
                }
            }
            column = column + 1;
        }
        proof {
            assert(row * quads_wide + quads_wide == (row + 1) * quads_wide) by (nonlinear_arith);
        }
        row = row + 1;
    }
    proof {
        assert(quads_tall * quads_wide == quads_wide * quads_tall) by (nonlinear_arith);
    }
    r
}

/// The width in quads of chunk `i` along a side of `total_quads` quads cut every
/// `chunk_resolution` quads: the resolution, or what is left for the last chunk.
pub open spec fn span_width(total_quads: nat, chunk_resolution: nat, i: nat) -> nat {
    let left = total_quads - i * chunk_resolution;
    if left < chunk_resolution {
        left as nat
    } else {
        chunk_resolution
    }
}

/// The vertices and triangles of chunk `k` in row-major order over a grid `columns` chunks wide:
/// `(w + 1) * (h + 1)` vertices and `2 * w * h` triangles for a chunk `w` by `h` quads.
pub open spec fn chunk_mesh_counts(total_quads: nat, chunk_resolution: nat, columns: nat, k: nat) -> (nat, nat) {
    let w = span_width(total_quads, chunk_resolution, k % columns);
    let h = span_width(total_quads, chunk_resolution, k / columns);
    (((w + 1) * (h + 1)) as nat, (2 * w * h) as nat)
}

/// The vertices and triangles of the first `n` chunks, summed.
pub open spec fn atlas_mesh_counts(total_quads: nat, chunk_resolution: nat, columns: nat, n: nat) -> (nat, nat)
    decreases n,
{
    if n == 0 {
        (0, 0)
    } else {
        let before = atlas_mesh_counts(total_quads, chunk_resolution, columns, (n - 1) as nat);
        let c = chunk_mesh_counts(total_quads, chunk_resolution, columns, (n - 1) as nat);
        (before.0 + c.0, before.1 + c.1)
    }
}

proof fn lemma_atlas_counts_grow(t: nat, res: nat, columns: nat, m: nat, n: nat)
    requires
        m <= n,
    ensures
        atlas_mesh_counts(t, res, columns, m).0 <= atlas_mesh_counts(t, res, columns, n).0,
        atlas_mesh_counts(t, res, columns, m).1 <= atlas_mesh_counts(t, res, columns, n).1,
    decreases n,
{
    if m < n {
        lemma_atlas_counts_grow(t, res, columns, m, (n - 1) as nat);
    }
}

fn chunk_counts_wide(quads_wide: u16, quads_tall: u16) -> (r: (u64, u64))
    ensures
        r.0 == (quads_wide + 1) * (quads_tall + 1),
        r.1 == 2 * quads_wide * quads_tall,
        r.0 <= 0x1_0000_0000,
        r.1 <= 0x2_0000_0000,
{
    assert((quads_wide + 1) * (quads_tall + 1) <= 65536 * 65536) by (nonlinear_arith)
        requires
            quads_wide <= 65535,
            quads_tall <= 65535,
    ;
    assert(2 * quads_wide * quads_tall <= 2 * 65536 * 65536) by (nonlinear_arith)
        requires
            quads_wide <= 65535,
            quads_tall <= 65535,
    ;
    ((quads_wide as u64 + 1) * (quads_tall as u64 + 1), 2 * (quads_wide as u64) * (quads_tall as u64))
}

/// The vertex and triangle counts a chunk `quads_wide` by `quads_tall` quads reports:
/// `(w + 1) * (h + 1)` and `2 * w * h`, as `u32` (their low 32 bits).
pub fn terrain_chunk_mesh_counts(quads_wide: u16, quads_tall: u16) -> (r: (u32, u32))
    ensures
        r.0 == ((quads_wide + 1) * (quads_tall + 1)) as u32,
        r.1 == (2 * quads_wide * quads_tall) as u32,
{
    let (v, t) = chunk_counts_wide(quads_wide, quads_tall);
    (v as u32, t as u32)
}

/// The chunk count and the vertex and triangle totals of a terrain of `total_quads` quads a
/// side cut into chunks of `chunk_resolution` quads, summed chunk by chunk in row-major order;
/// nothing when a total does not fit in `u32`, where summing them overflows.
pub fn terrain_atlas_counts(total_quads: u16, chunk_resolution: u16) -> (r: Option<(u32, u32, u32)>)
    requires
        chunk_resolution > 0,
    ensures
        ({
            let columns = chunk_count(total_quads as nat, chunk_resolution as nat);
            let totals = atlas_mesh_counts(
                total_quads as nat,
                chunk_resolution as nat,
                columns,
                columns * columns,
            );
            &&& r is Some <==> totals.0 <= u32::MAX && totals.1 <= u32::MAX
            &&& r matches Some(x) ==> x.0 == columns * columns && x.1 == totals.0 && x.2 == totals.1
        }),
{
    let columns = terrain_chunk_count(total_quads, chunk_resolution);
    let ghost t = total_quads as nat;
    let ghost res = chunk_resolution as nat;
    let ghost cols = columns as nat;
    let mut vertices: u64 = 0;
    let mut triangles: u64 = 0;
    let mut y: u16 = 0;
    while y < columns
        invariant
            y <= columns,
            columns == chunk_count(t, res),
            t == total_quads,
            res == chunk_resolution,
            cols == columns,
            chunk_resolution > 0,
            vertices <= u32::MAX,
            triangles <= u32::MAX,
            (vertices as nat, triangles as nat) == atlas_mesh_counts(t, res, cols, (y * cols) as nat),
        decreases columns - y,
    {
        let (_, h) = terrain_chunk_span(total_quads, chunk_resolution, y);
        let mut x: u16 = 0;
        while x < columns
            invariant
                y < columns,
                x <= columns,
                columns == chunk_count(t, res),
                t == total_quads,
                res == chunk_resolution,
                cols == columns,
                chunk_resolution > 0,
                h == span_width(t, res, y as nat),
                vertices <= u32::MAX,
                triangles <= u32::MAX,
                (vertices as nat, triangles as nat) == atlas_mesh_counts(t, res, cols, (y * cols + x) as nat),
            decreases columns - x,
        {
            let (_, w) = terrain_chunk_span(total_quads, chunk_resolution, x);
            let (v, tr) = chunk_counts_wide(w, h);
            let ghost k = (y * cols + x) as nat;
            proof {
                vstd::arithmetic::div_mod::lemma_fundamental_div_mod_converse(
                    k as int,
                    cols as int,
                    y as int,
                    x as int,
                );
                assert(y * cols == cols * y) by (nonlinear_arith);
                assert(w == span_width(t, res, x as nat));
                assert(chunk_mesh_counts(t, res, cols, k) == (v as nat, tr as nat));
                assert(atlas_mesh_counts(t, res, cols, k + 1) == (
                    (vertices + v) as nat,
                    (triangles + tr) as nat,
                ));
            }
            vertices = vertices + v;
            triangles = triangles + tr;
            if vertices > 4294967295 || triangles > 4294967295 {
                proof {
                    assert(y * cols + x + 1 <= cols * cols) by (nonlinear_arith)
                        requires
                            y < cols,
                            x < cols,
                    ;
                    lemma_atlas_counts_grow(t, res, cols, k + 1, cols * cols);
                }
                return None;
            }
            x = x + 1;
        }
        proof {
            assert(y * cols + cols == (y + 1) * cols) by (nonlinear_arith);
        }
        y = y + 1;
    }
    assert(columns * columns <= 65535 * 65535) by (nonlinear_arith)
        requires
            columns <= 65535,
    ;
    Some(((columns as u32) * (columns as u32), vertices as u32, triangles as u32))
}

} // verus!
