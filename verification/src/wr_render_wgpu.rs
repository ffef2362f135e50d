use vstd::prelude::*;

use crate::wr_core::{CrateBoundary, CrateEntryPoint, entry_card};
use crate::wr_render_api::{CapturedFrameInfo, GraphicsAdapterInfo, RenderSize};

verus! {

/// The entry point of the wgpu renderer crate: a subsystem, not integration-only.
pub fn init_entrypoint() -> (r: CrateEntryPoint)
    ensures
        entry_card(r, "wr_render_wgpu"@, CrateBoundary::Subsystem, false),
{
    CrateEntryPoint::new("wr_render_wgpu", CrateBoundary::Subsystem, false)
}

/// The adapter an offscreen capture ran on and the frame it captured.
#[derive(Debug, Clone, PartialEq, Eq)]
pub struct OffscreenCaptureOutcome {
    pub adapter: GraphicsAdapterInfo,
    pub frame: CapturedFrameInfo,
}

/// Whether the pixel at `k` has a component that is not zero.
pub open spec fn pixel_is_lit(bytes: Seq<u8>, k: int) -> bool {
    bytes[4 * k] != 0 || bytes[4 * k + 1] != 0 || bytes[4 * k + 2] != 0 || bytes[4 * k + 3] != 0
}

/// How many of the first `n` whole RGBA pixels of `bytes` are lit.
pub open spec fn lit_pixels(bytes: Seq<u8>, n: nat) -> nat
    decreases n,
{
    if n == 0 {
        0
    } else {
        lit_pixels(bytes, (n - 1) as nat) + if pixel_is_lit(bytes, n - 1) {
            1nat
        } else {
            0
        }
    }
}

/// How many whole four-byte pixels of `bytes` have a non-zero component; trailing bytes that
/// do not make a whole pixel are ignored.
pub fn count_non_empty_pixels(bytes: &[u8]) -> (r: u64)
    ensures
        r == lit_pixels(bytes@, bytes@.len() / 4),
{
    let len = bytes.len();
    let n = len / 4;
    let mut count: u64 = 0;
    let mut k: usize = 0;
    while k < n
        invariant
            len == bytes@.len(),
            n == bytes@.len() / 4,
            k <= n,
            count == lit_pixels(bytes@, k as nat),
            count <= k,
        decreases n - k,
    {
        assert(4 * k + 3 < bytes@.len()) by (nonlinear_arith)
            requires
                k < n,
                n == len / 4,
                len == bytes@.len(),
        ;
        let base = 4 * k;
        if bytes[base] != 0 || bytes[base + 1] != 0 || bytes[base + 2] != 0 || bytes[base + 3] != 0 {
            count = count + 1;
        }
        k = k + 1;
    }
    count
}

/// The tight image held in a readback whose rows are `padded` bytes apart: byte `i` of the
/// image is byte `i % row_bytes` of row `i / row_bytes`.
pub open spec fn unpadded_rows(data: Seq<u8>, row_bytes: nat, padded: nat, rows: nat) -> Seq<u8> {
    Seq::new(rows * row_bytes, |i: int| data[(i / (row_bytes as int)) * padded + i % (row_bytes as int)])
}

/// Copies the rows of a GPU readback, `padded_bytes_per_row` bytes apart, into a tight buffer
/// of `rows` rows of `row_bytes` bytes each.
pub fn unpad_rows(data: &[u8], row_bytes: u32, padded_bytes_per_row: u32, rows: u32) -> (r: Vec<u8>)
    requires
        row_bytes <= padded_bytes_per_row,
        padded_bytes_per_row * rows <= data@.len(),
    ensures
        r@ == unpadded_rows(data@, row_bytes as nat, padded_bytes_per_row as nat, rows as nat),
{
    let n = data.len();
    let mut r: Vec<u8> = Vec::new();
    let mut row: u32 = 0;
    while row < rows
        invariant
            n == data@.len(),
            row <= rows,
            row_bytes <= padded_bytes_per_row,
            padded_bytes_per_row * rows <= data@.len(),
            r@.len() == row * row_bytes,
            forall|i: int|
                0 <= i < r@.len() ==> #[trigger] r@[i] == data@[(i / (row_bytes as int))
                    * padded_bytes_per_row + i % (row_bytes as int)],
        decreases rows - row,
    {
        assert(row * padded_bytes_per_row + padded_bytes_per_row <= padded_bytes_per_row * rows)
            by (nonlinear_arith)
            requires
                row < rows,
        ;
        assert(row * padded_bytes_per_row + padded_bytes_per_row <= n);
        let start: usize = row as usize * padded_bytes_per_row as usize;
        let mut b: u32 = 0;
        while b < row_bytes
            invariant
                n == data@.len(),
                row < rows,
                b <= row_bytes,
                start == row * padded_bytes_per_row,
                start + padded_bytes_per_row <= data@.len(),
                row_bytes <= padded_bytes_per_row,
                r@.len() == row * row_bytes + b,
                forall|i: int|
                    0 <= i < r@.len() ==> #[trigger] r@[i] == data@[(i / (row_bytes as int))
                        * padded_bytes_per_row + i % (row_bytes as int)],
            decreases row_bytes - b,
        {
            let ghost i = r@.len() as int;
            proof {
                vstd::arithmetic::div_mod::lemma_fundamental_div_mod_converse(
                    i,
                    row_bytes as int,
                    row as int,
                    b as int,
                );
                assert(row * row_bytes == row_bytes * row) by (nonlinear_arith);
                assert(row * padded_bytes_per_row == padded_bytes_per_row * row) by (nonlinear_arith);
            }
            r.push(data[start + b as usize]);
            b = b + 1;
        }
        proof {
            assert(row * row_bytes + row_bytes == (row + 1) * row_bytes) by (nonlinear_arith);
        }
        row = row + 1;
    }
    assert(r@ =~= unpadded_rows(data@, row_bytes as nat, padded_bytes_per_row as nat, rows as nat));
    r
}

/// `value` rounded up to a multiple of `alignment`.
pub fn align_to(value: u32, alignment: u32) -> (r: u32)
    requires
        alignment > 0,
        (value + alignment - 1) / (alignment as int) * alignment <= u32::MAX,
    ensures
        r % alignment == 0,
        r >= value,
        r - value < alignment,
{
    let whole = value / alignment;
    let rest = value % alignment;
    assert(rest != 0 ==> whole < u32::MAX) by (nonlinear_arith)
        requires
            alignment > 0,
            whole == value / alignment,
            rest == value % alignment,
    ;
    let q = if rest == 0 {
        whole
    } else {
        whole + 1
    };
    assert(q == (value + alignment - 1) / (alignment as int)) by (nonlinear_arith)
        requires
            alignment > 0,
            q == value / alignment + if value % alignment == 0 {
                0int
            } else {
                1int
            },
    ;
    assert(q * alignment >= value && q * alignment - value < alignment && (q * alignment)
        % (alignment as int) == 0) by (nonlinear_arith)
        requires
            alignment > 0,
            q == value / alignment + if value % alignment == 0 {
                0int
            } else {
                1int
            },
    ;
    q * alignment
}

/// A size with each side capped at `max_dimension`.
pub fn clamp_surface_size(size: RenderSize, max_dimension: u32) -> (r: RenderSize)
    ensures
        r.width == if size.width < max_dimension {
            size.width
        } else {
            max_dimension
        },
        r.height == if size.height < max_dimension {
            size.height
        } else {
            max_dimension
        },
{
    RenderSize::new(
        if size.width < max_dimension {
            size.width
        } else {
            max_dimension
        },
        if size.height < max_dimension {
            size.height
        } else {
            max_dimension
        },
    )
}

} // verus!
