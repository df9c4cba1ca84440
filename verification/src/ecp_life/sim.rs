//! The sizes the particle-life app's GPU plumbing is built from, and its shader
//! assembly.
//!
//! The pass order per substep is fixed: rebuild the grid (clear, count, three-level
//! scan, scatter), then force, then integrate. The grid is sized for the finest cutoff
//! the slider allows and the prefix scan over it is exactly two levels deep, which only
//! works because of the two facts [`lemma_scan_tiles_the_grid`] proves.
use vstd::prelude::*;

use crate::text::{join, joined, views};

verus! {

/// The workgroup size every compute shader declares.
pub const WORKGROUP: u32 = 256;

/// Finest subdivision of the world the cutoff slider can ask for.
pub const MAX_CELLS_1D: u32 = 256;

/// Cells in the finest grid.
pub const MAX_CELLS: u32 = 65536;

/// Blocks the first level of the prefix scan divides the grid into.
pub const SCAN_BLOCKS: u32 = 256;

/// Words of grid storage: counts, offsets, cursors, then one running total per scan
/// block.
pub const GRID_WORDS: u64 = 196864;

/// The grid's sizes agree with each other: the block scan tiles the grid exactly, the
/// block totals fit in one more workgroup-wide scan, and the grid storage is three words
/// per cell plus one per block.
pub proof fn lemma_scan_tiles_the_grid()
    ensures
        MAX_CELLS == MAX_CELLS_1D * MAX_CELLS_1D,
        SCAN_BLOCKS == MAX_CELLS / WORKGROUP,
        SCAN_BLOCKS * WORKGROUP == MAX_CELLS,
        SCAN_BLOCKS <= WORKGROUP,
        GRID_WORDS == 3 * MAX_CELLS + SCAN_BLOCKS,
{
}

/// Shader source. WGSL has no `#include`, so the shared declarations are pasted in ahead
/// of a module's own, one part per line.
pub fn source(parts: &[&str]) -> (r: String)
    ensures
        r@ == joined(views(parts@), "\n"@),
{
    join(parts, "\n")
}

/// Workgroups needed to cover `n` particles.
pub fn dispatch_groups(n: u32) -> (r: u32)
    ensures
        r == (n + WORKGROUP - 1) / (WORKGROUP as int),
{
    n / WORKGROUP + if n % WORKGROUP != 0 { 1u32 } else { 0u32 }
}

/// Whether the accumulation buffer has to be (re)built for a viewport: when there is
/// none, or it is a different size.
pub fn needs_accum(current: Option<(u32, u32)>, width: u32, height: u32) -> (r: bool)
    ensures
        r == (match current {
            Some((w, h)) => w != width || h != height,
            None => true,
        }),
{
    match current {
        Some((w, h)) => w != width || h != height,
        None => true,
    }
}

/// How many cells the world divides into, given how many whole cutoffs fit across it:
/// never fewer than four, and never more than the grid was allocated for.
///
/// Rounding down before this is what makes the 3×3 neighbourhood scan exact: a cell is
/// then at least as wide as the cutoff. Clamping up to four can only widen cells further.
pub fn grid_cells(per_cutoff: u32) -> (r: u32)
    ensures
        4 <= r <= MAX_CELLS_1D,
        r == (if per_cutoff < 4 {
            4
        } else if per_cutoff > MAX_CELLS_1D {
            MAX_CELLS_1D
        } else {
            per_cutoff
        }),
        per_cutoff >= 4 ==> r <= per_cutoff,
{
    if per_cutoff < 4 {
        4
    } else if per_cutoff > MAX_CELLS_1D {
        MAX_CELLS_1D
    } else {
        per_cutoff
    }
}

} // verus!
