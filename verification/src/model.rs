//! The mathematical model of the engine: what a grid holds, how the topology
//! resolves coordinates, what the Life rule says, and what each mutating
//! operation leaves in the grid and in the diff.

use vstd::prelude::*;

verus! {

use crate::universe::Cell;

/// The opposite state: Dead for Alive, Alive for Dead.
pub open spec fn flipped(c: Cell) -> Cell {
    match c {
        Cell::Dead => Cell::Alive,
        Cell::Alive => Cell::Dead,
    }
}

/// The cell a row-major grid holds at (row, col); every off-grid coordinate
/// reads as Dead.
pub open spec fn cell_at(cells: Seq<Cell>, width: nat, height: nat, row: int, col: int) -> Cell {
    if 0 <= row < height && 0 <= col < width {
        cells[row * width + col]
    } else {
        Cell::Dead
    }
}

/// One toroidal step from coordinate v along an axis of extent m: a step just
/// past the last index wraps to 0, a step just before index 0 wraps to the
/// last index. Meaningful for 0 <= v < m and a step d with -1 <= d <= 1.
pub open spec fn torus_step(v: int, d: int, m: int) -> int {
    if v + d < 0 {
        v + d + m
    } else if v + d >= m {
        v + d - m
    } else {
        v + d
    }
}

/// The stepped coordinate the engine actually reads: the torus step when the
/// universe is compact, and otherwise the raw step, with any off-axis result
/// sent to the sentinel m — a coordinate just off the grid, which reads as
/// Dead.
pub open spec fn step_sentinel(v: int, d: int, m: int, compact: bool) -> int {
    if compact {
        torus_step(v, d, m)
    } else if 0 <= v + d < m {
        v + d
    } else {
        m
    }
}

/// Reading the grid at a stepped coordinate pair gives exactly the
/// topology-resolved neighbor.
pub proof fn lemma_step_reads_neighbor(
    cells: Seq<Cell>,
    width: nat,
    height: nat,
    compact: bool,
    row: int,
    col: int,
    dr: int,
    dc: int,
)
    requires
        1 <= width,
        1 <= height,
        0 <= row < height,
        0 <= col < width,
        -1 <= dr <= 1,
        -1 <= dc <= 1,
    ensures
        cell_at(
            cells,
            width,
            height,
            step_sentinel(row, dr, height as int, compact),
            step_sentinel(col, dc, width as int, compact),
        ) == neighbor_at(cells, width, height, compact, row, col, dr, dc),
{
}

/// The neighbor of (row, col) at offset (dr, dc), resolved by the topology:
/// a compact (toroidal) universe wraps at the edges, a bounded one treats
/// off-grid coordinates as Dead.
pub open spec fn neighbor_at(
    cells: Seq<Cell>,
    width: nat,
    height: nat,
    compact: bool,
    row: int,
    col: int,
    dr: int,
    dc: int,
) -> Cell {
    if compact {
        cell_at(
            cells,
            width,
            height,
            torus_step(row, dr, height as int),
            torus_step(col, dc, width as int),
        )
    } else {
        cell_at(cells, width, height, row + dr, col + dc)
    }
}

/// 1 for a live cell, 0 for a dead one.
pub open spec fn live_weight(c: Cell) -> nat {
    match c {
        Cell::Alive => 1,
        Cell::Dead => 0,
    }
}

/// How many of the 8 Moore neighbors of (row, col) are alive, each resolved
/// by the active topology against the same (pre-tick) grid.
pub open spec fn live_neighbors(
    cells: Seq<Cell>,
    width: nat,
    height: nat,
    compact: bool,
    row: int,
    col: int,
) -> nat {
    live_weight(neighbor_at(cells, width, height, compact, row, col, -1, -1))
        + live_weight(neighbor_at(cells, width, height, compact, row, col, -1, 0))
        + live_weight(neighbor_at(cells, width, height, compact, row, col, -1, 1))
        + live_weight(neighbor_at(cells, width, height, compact, row, col, 0, -1))
        + live_weight(neighbor_at(cells, width, height, compact, row, col, 0, 1))
        + live_weight(neighbor_at(cells, width, height, compact, row, col, 1, -1))
        + live_weight(neighbor_at(cells, width, height, compact, row, col, 1, 0))
        + live_weight(neighbor_at(cells, width, height, compact, row, col, 1, 1))
}

/// The Life rule. A live cell with fewer than two live neighbors dies of
/// underpopulation; with two or three it lives on; with more than three it
/// dies of overpopulation. A dead cell with exactly three live neighbors
/// becomes alive; every other dead cell stays dead.
pub open spec fn rule(c: Cell, live: nat) -> Cell {
    match c {
        Cell::Alive => if live == 2 || live == 3 {
            Cell::Alive
        } else {
            Cell::Dead
        },
        Cell::Dead => if live == 3 {
            Cell::Alive
        } else {
            Cell::Dead
        },
    }
}

/// The whole next generation of a row-major grid: every cell steps by the
/// rule, with its neighbors counted against the current grid.
pub open spec fn next_gen(cells: Seq<Cell>, width: nat, height: nat, compact: bool) -> Seq<Cell> {
    Seq::new(
        cells.len(),
        |i: int|
            rule(
                cells[i],
                live_neighbors(cells, width, height, compact, i / (width as int), i % (width as int)),
            ),
    )
}

/// The indices below n at which two grids differ, in increasing (row-major)
/// order.
pub open spec fn diff_below(a: Seq<Cell>, b: Seq<Cell>, n: int) -> Seq<usize>
    decreases n,
{
    if n <= 0 {
        Seq::empty()
    } else if a[n - 1] != b[n - 1] {
        diff_below(a, b, n - 1).push((n - 1) as usize)
    } else {
        diff_below(a, b, n - 1)
    }
}

/// A grid of n Dead cells.
pub open spec fn dead_grid(n: nat) -> Seq<Cell> {
    Seq::new(n, |i: int| Cell::Dead)
}

/// The full diff 0, 1, ..., n-1 that the bulk mutations report, changed
/// cells or not.
pub open spec fn all_indices(n: nat) -> Seq<usize> {
    Seq::new(n, |i: int| i as usize)
}

/// The grid that one random draw per cell yields: true is Alive.
pub open spec fn grid_of_draws(draws: Seq<bool>) -> Seq<Cell> {
    draws.map_values(|b: bool| if b { Cell::Alive } else { Cell::Dead })
}

/// Where a stamped coordinate lands. A compact (toroidal) universe wraps both
/// axes by full Euclidean modulo, so every point lands on the grid; a bounded
/// one keeps only points already on the grid and drops the rest.
pub open spec fn resolve_coord(width: nat, height: nat, compact: bool, row: int, col: int) -> Option<int> {
    if compact {
        Some((row % (height as int)) * width + (col % (width as int)))
    } else if 0 <= row < height && 0 <= col < width {
        Some(row * width + col)
    } else {
        None
    }
}

/// The grid after stamping the first n of the given (row, col) points Alive,
/// each resolved by the topology; dropped points leave the grid as it was.
pub open spec fn stamp_grid(
    cells: Seq<Cell>,
    width: nat,
    height: nat,
    compact: bool,
    pts: Seq<(int, int)>,
    n: int,
) -> Seq<Cell>
    decreases n,
{
    if n <= 0 {
        cells
    } else {
        let prev = stamp_grid(cells, width, height, compact, pts, n - 1);
        match resolve_coord(width, height, compact, pts[n - 1].0, pts[n - 1].1) {
            Some(i) => prev.update(i, Cell::Alive),
            None => prev,
        }
    }
}

/// The diff after stamping the first n points: the landing index of each kept
/// point, appended in stamping order to whatever diff was already there.
pub open spec fn stamp_diff(
    diff: Seq<usize>,
    width: nat,
    height: nat,
    compact: bool,
    pts: Seq<(int, int)>,
    n: int,
) -> Seq<usize>
    decreases n,
{
    if n <= 0 {
        diff
    } else {
        let prev = stamp_diff(diff, width, height, compact, pts, n - 1);
        match resolve_coord(width, height, compact, pts[n - 1].0, pts[n - 1].1) {
            Some(i) => prev.push(i as usize),
            None => prev,
        }
    }
}

/// A list of unsigned (row, col) pairs as mathematical integers.
pub open spec fn points_of_u32(pts: Seq<(u32, u32)>) -> Seq<(int, int)> {
    pts.map_values(|p: (u32, u32)| (p.0 as int, p.1 as int))
}

/// A list of signed (row, col) pairs as mathematical integers.
pub open spec fn points_of_i64(pts: Seq<(i64, i64)>) -> Seq<(int, int)> {
    pts.map_values(|p: (i64, i64)| (p.0 as int, p.1 as int))
}

/// The five cells of a glider, anchored at (row, col).
pub open spec fn glider_points(row: int, col: int) -> Seq<(int, int)> {
    seq![
        (row, col - 1),
        (row + 1, col),
        (row - 1, col + 1),
        (row, col + 1),
        (row + 1, col + 1),
    ]
}

/// The 48 cells of a pulsar, anchored at (row, col): the outer rim first,
/// then the inner arms.
pub open spec fn pulsar_points(row: int, col: int) -> Seq<(int, int)> {
    seq![
        (row - 6, col - 4),
        (row - 6, col - 3),
        (row - 6, col - 2),
        (row - 6, col + 2),
        (row - 6, col + 3),
        (row - 6, col + 4),
        (row + 6, col - 4),
        (row + 6, col - 3),
        (row + 6, col - 2),
        (row + 6, col + 2),
        (row + 6, col + 3),
        (row + 6, col + 4),
        (row - 4, col - 6),
        (row - 3, col - 6),
        (row - 2, col - 6),
        (row - 4, col + 6),
        (row - 3, col + 6),
        (row - 2, col + 6),
        (row + 4, col - 6),
        (row + 3, col - 6),
        (row + 2, col - 6),
        (row + 4, col + 6),
        (row + 3, col + 6),
        (row + 2, col + 6),
        (row - 1, col - 4),
        (row - 1, col - 3),
        (row - 1, col - 2),
        (row - 1, col + 2),
        (row - 1, col + 3),
        (row - 1, col + 4),
        (row + 1, col - 4),
        (row + 1, col - 3),
        (row + 1, col - 2),
        (row + 1, col + 2),
        (row + 1, col + 3),
        (row + 1, col + 4),
        (row + 4, col - 1),
        (row + 3, col - 1),
        (row + 2, col - 1),
        (row + 4, col + 1),
        (row + 3, col + 1),
        (row + 2, col + 1),
        (row - 4, col - 1),
        (row - 3, col - 1),
        (row - 2, col - 1),
        (row - 4, col + 1),
        (row - 3, col + 1),
        (row - 2, col + 1),
    ]
}

} // verus!
