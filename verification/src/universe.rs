//! The engine itself: the cell type and the Universe with its mutating
//! operations and queries, each proved against the model.

use vstd::prelude::*;

verus! {

use crate::model::all_indices;
use crate::model::cell_at;
use crate::model::glider_points;
use crate::model::pulsar_points;
use crate::model::dead_grid;
use crate::model::diff_below;
use crate::model::grid_of_draws;
use crate::model::lemma_step_reads_neighbor;
use crate::model::step_sentinel;
use crate::model::flipped;
use crate::model::live_neighbors;
use crate::model::live_weight;
use crate::model::neighbor_at;
use crate::model::next_gen;
use crate::model::points_of_i64;
use crate::model::points_of_u32;
use crate::model::resolve_coord;
use crate::model::rule;
use crate::model::stamp_diff;
use crate::model::stamp_grid;
use vstd::arithmetic::div_mod::lemma_fundamental_div_mod_converse;
use vstd::arithmetic::div_mod::lemma_mod_multiples_vanish;

/// One grid position's state.
#[derive(Clone, Copy, Debug, PartialEq, Eq, Structural)]
pub enum Cell {
    Dead,
    Alive,
}

impl Cell {
    /// Flip Dead to Alive and Alive to Dead.
    pub fn toggle(&mut self)
        ensures
            *final(self) == flipped(*old(self)),
    {
        *self = match *self {
            Cell::Dead => Cell::Alive,
            Cell::Alive => Cell::Dead,
        };
    }
}

/// The coordinate one step before v on an axis of extent m, as the topology
/// resolves it: wrapped to the last index on a torus, or to the off-grid
/// sentinel m on a bounded grid.
fn coord_before(v: u32, m: u32, compact: bool) -> (r: u32)
    requires
        1 <= m,
        v < m,
    ensures
        r as int == step_sentinel(v as int, -1, m as int, compact),
{
    if v == 0 {
        if compact {
            m - 1
        } else {
            m
        }
    } else {
        v - 1
    }
}

/// The coordinate one step after v on an axis of extent m, as the topology
/// resolves it: wrapped to 0 on a torus, or the off-grid sentinel m on a
/// bounded grid.
fn coord_after(v: u32, m: u32, compact: bool) -> (r: u32)
    requires
        1 <= m,
        v < m,
    ensures
        r as int == step_sentinel(v as int, 1, m as int, compact),
{
    if v == m - 1 {
        if compact {
            0
        } else {
            m
        }
    } else {
        v + 1
    }
}

/// 1 for Alive, 0 for Dead.
fn live_val(c: Cell) -> (v: u8)
    ensures
        v as nat == live_weight(c),
{
    match c {
        Cell::Alive => 1,
        Cell::Dead => 0,
    }
}

/// The next state of a cell, from its current state and its live-neighbor
/// count.
pub fn next_cell_state(cell: Cell, live: u8) -> (next: Cell)
    ensures
        next == rule(cell, live as nat),
{
    match cell {
        Cell::Alive => if live == 2 || live == 3 {
            Cell::Alive
        } else {
            Cell::Dead
        },
        Cell::Dead => if live == 3 {
            Cell::Alive
        } else {
            Cell::Dead
        },
    }
}

/// A Game of Life universe: a dense row-major grid of cells, a scratch grid
/// of the same size for computing the next generation without disturbing the
/// current one, and a list of the indices changed by the latest operation.
pub struct Universe {
    pub width: u32,
    pub height: u32,
    pub size: u32,
    pub cells: Vec<Cell>,
    pub cells_next: Vec<Cell>,
    pub cells_diff: Vec<usize>,
    pub is_compact: bool,
}

impl Universe {
    /// The structural invariant: positive dimensions, the recorded size equal
    /// to width times height, and both buffers of exactly that length.
    pub open spec fn wf(self) -> bool {
        &&& 1 <= self.width
        &&& 1 <= self.height
        &&& self.size == self.width * self.height
        &&& self.cells@.len() == self.size
        &&& self.cells_next@.len() == self.size
    }

    /// A fresh universe: both buffers all Dead, an empty diff, and the
    /// compact (toroidal) topology.
    pub fn new(width: u32, height: u32) -> (u: Universe)
        requires
            1 <= width,
            1 <= height,
            width * height <= u32::MAX,
        ensures
            u.wf(),
            u.width == width,
            u.height == height,
            u.size == width * height,
            u.cells@ == dead_grid((width * height) as nat),
            u.cells_next@ == dead_grid((width * height) as nat),
            u.cells_diff@ == Seq::<usize>::empty(),
            u.is_compact,
    {
        let size: u32 = width * height;
        let mut cells: Vec<Cell> = Vec::new();
        let mut cells_next: Vec<Cell> = Vec::new();
        let mut i: u32 = 0;
        while i < size
            invariant
                i <= size,
                cells@.len() == i,
                cells_next@.len() == i,
                forall|j: int| 0 <= j < i ==> cells@[j] is Dead,
                forall|j: int| 0 <= j < i ==> cells_next@[j] is Dead,
            decreases size - i,
        {
            cells.push(Cell::Dead);
            cells_next.push(Cell::Dead);
            i = i + 1;
        }
        assert(cells@ =~= dead_grid(size as nat));
        assert(cells_next@ =~= dead_grid(size as nat));
        Universe {
            width,
            height,
            size,
            cells,
            cells_next,
            cells_diff: Vec::new(),
            is_compact: true,
        }
    }

    /// Row-major index of (row, col). No bounds are enforced beyond the
    /// precondition: the caller must pass on-grid coordinates.
    pub fn get_index(&self, row: u32, col: u32) -> (idx: usize)
        requires
            self.wf(),
            row < self.height,
            col < self.width,
        ensures
            idx == row * self.width + col,
            idx < self.size,
    {
        assert(row * self.width + col < self.width * self.height) by (nonlinear_arith)
            requires
                row < self.height,
                col < self.width,
        ;
        (row * self.width + col) as usize
    }

    /// The cell at (row, col); any off-grid coordinate reads as Dead.
    pub fn get_cell(&self, row: u32, col: u32) -> (c: Cell)
        requires
            self.wf(),
        ensures
            c == cell_at(self.cells@, self.width as nat, self.height as nat, row as int, col as int),
    {
        if row < self.height && col < self.width {
            let idx = self.get_index(row, col);
            self.cells[idx]
        } else {
            Cell::Dead
        }
    }

    /// How many of the 8 Moore neighbors of (row, col) are alive. Each
    /// neighbor coordinate is resolved freshly by the active topology: a
    /// compact universe wraps the step at the edges, a bounded one sends it
    /// to a coordinate just off the grid, which reads as Dead.
    fn live_neighbors_count(&self, row: u32, col: u32) -> (n: u8)
        requires
            self.wf(),
            row < self.height,
            col < self.width,
        ensures
            n as nat == live_neighbors(
                self.cells@,
                self.width as nat,
                self.height as nat,
                self.is_compact,
                row as int,
                col as int,
            ),
    {
        let up = coord_before(row, self.height, self.is_compact);
        let down = coord_after(row, self.height, self.is_compact);
        let left = coord_before(col, self.width, self.is_compact);
        let right = coord_after(col, self.width, self.is_compact);
        let ghost g = self.cells@;
        let ghost w = self.width as nat;
        let ghost h = self.height as nat;
        let ghost cp = self.is_compact;
        let ghost r = row as int;
        let ghost c = col as int;
        proof {
            assert(step_sentinel(r, 0, h as int, cp) == r);
            assert(step_sentinel(c, 0, w as int, cp) == c);
            lemma_step_reads_neighbor(g, w, h, cp, r, c, -1, -1);
            lemma_step_reads_neighbor(g, w, h, cp, r, c, -1, 0);
            lemma_step_reads_neighbor(g, w, h, cp, r, c, -1, 1);
            lemma_step_reads_neighbor(g, w, h, cp, r, c, 0, -1);
            lemma_step_reads_neighbor(g, w, h, cp, r, c, 0, 1);
            lemma_step_reads_neighbor(g, w, h, cp, r, c, 1, -1);
            lemma_step_reads_neighbor(g, w, h, cp, r, c, 1, 0);
            lemma_step_reads_neighbor(g, w, h, cp, r, c, 1, 1);
        }
        let nw = self.get_cell(up, left);
        let nn = self.get_cell(up, col);
        let ne = self.get_cell(up, right);
        let ww = self.get_cell(row, left);
        let ee = self.get_cell(row, right);
        let sw = self.get_cell(down, left);
        let ss = self.get_cell(down, col);
        let se = self.get_cell(down, right);
        proof {
            assert(nw == neighbor_at(g, w, h, cp, r, c, -1, -1));
            assert(nn == neighbor_at(g, w, h, cp, r, c, -1, 0));
            assert(ne == neighbor_at(g, w, h, cp, r, c, -1, 1));
            assert(ww == neighbor_at(g, w, h, cp, r, c, 0, -1));
            assert(ee == neighbor_at(g, w, h, cp, r, c, 0, 1));
            assert(sw == neighbor_at(g, w, h, cp, r, c, 1, -1));
            assert(ss == neighbor_at(g, w, h, cp, r, c, 1, 0));
            assert(se == neighbor_at(g, w, h, cp, r, c, 1, 1));
        }
        let n: u8 = live_val(nw) + live_val(nn) + live_val(ne) + live_val(ww) + live_val(ee)
            + live_val(sw) + live_val(ss) + live_val(se);
        n
    }

    /// Advance one generation. Every cell steps by the Life rule, with its
    /// neighbors counted against the pre-tick grid only; the diff is rebuilt
    /// to list exactly the indices whose state changed, in row-major order.
    pub fn tick(&mut self)
        requires
            old(self).wf(),
        ensures
            final(self).wf(),
            final(self).width == old(self).width,
            final(self).height == old(self).height,
            final(self).size == old(self).size,
            final(self).is_compact == old(self).is_compact,
            final(self).cells@ == next_gen(
                old(self).cells@,
                old(self).width as nat,
                old(self).height as nat,
                old(self).is_compact,
            ),
            final(self).cells_diff@ == diff_below(
                old(self).cells@,
                final(self).cells@,
                old(self).size as int,
            ),
    {
        let ghost g0 = self.cells@;
        let ghost w = self.width as nat;
        let ghost h = self.height as nat;
        let ghost cp = self.is_compact;
        let ghost ng = next_gen(g0, w, h, cp);

        self.cells_diff.clear();
        let mut row: u32 = 0;
        while row < self.height
            invariant
                self.wf(),
                self.width == old(self).width,
                self.height == old(self).height,
                self.size == old(self).size,
                self.is_compact == old(self).is_compact,
                self.cells@ == g0,
                g0 == old(self).cells@,
                w == self.width as nat,
                h == self.height as nat,
                cp == self.is_compact,
                ng == next_gen(g0, w, h, cp),
                row <= self.height,
                forall|k: int| 0 <= k < row * self.width ==> self.cells_next@[k] == ng[k],
                self.cells_diff@ == diff_below(g0, ng, row * self.width),
            decreases self.height - row,
        {
            let mut col: u32 = 0;
            while col < self.width
                invariant
                    self.wf(),
                    self.width == old(self).width,
                    self.height == old(self).height,
                    self.size == old(self).size,
                    self.is_compact == old(self).is_compact,
                    self.cells@ == g0,
                    g0 == old(self).cells@,
                    w == self.width as nat,
                    h == self.height as nat,
                    cp == self.is_compact,
                    ng == next_gen(g0, w, h, cp),
                    row < self.height,
                    col <= self.width,
                    forall|k: int| 0 <= k < row * self.width + col ==> self.cells_next@[k] == ng[k],
                    self.cells_diff@ == diff_below(g0, ng, row * self.width + col),
                decreases self.width - col,
            {
                let idx = self.get_index(row, col);
                let cell = self.cells[idx];
                let live = self.live_neighbors_count(row, col);
                let next = next_cell_state(cell, live);
                proof {
                    lemma_fundamental_div_mod_converse(
                        idx as int,
                        self.width as int,
                        row as int,
                        col as int,
                    );
                    assert(next == ng[idx as int]);
                }
                self.cells_next.set(idx, next);
                if next != cell {
                    self.cells_diff.push(idx);
                }
                proof {
                    assert(self.cells_diff@ == diff_below(g0, ng, idx + 1));
                }
                col = col + 1;
            }
            proof {
                assert(row * self.width + self.width == (row + 1) * self.width) by (nonlinear_arith);
            }
            row = row + 1;
        }
        proof {
            assert(self.height * self.width == self.width * self.height) by (nonlinear_arith);
            assert(self.cells_next@ =~= ng);
        }
        let mut i: usize = 0;
        let n: usize = self.cells.len();
        while i < n
            invariant
                self.wf(),
                self.width == old(self).width,
                self.height == old(self).height,
                self.size == old(self).size,
                self.is_compact == old(self).is_compact,
                n == self.size,
                self.cells_next@ == ng,
                ng.len() == self.size,
                self.cells_diff@ == diff_below(g0, ng, self.size as int),
                g0 == old(self).cells@,
                i <= n,
                forall|k: int| 0 <= k < i ==> self.cells@[k] == ng[k],
            decreases n - i,
        {
            let next = self.cells_next[i];
            self.cells.set(i, next);
            i = i + 1;
        }
        proof {
            assert(self.cells@ =~= ng);
        }
    }

    /// Read-only view of the current grid, row-major; valid until the next
    /// mutating call.
    pub fn cells(&self) -> (r: &Vec<Cell>)
        ensures
            r@ == self.cells@,
    {
        &self.cells
    }

    /// Read-only view of the diff: the indices changed by the latest
    /// operation, in the order they were recorded.
    pub fn cells_diff(&self) -> (r: &Vec<usize>)
        ensures
            r@ == self.cells_diff@,
    {
        &self.cells_diff
    }

    /// How many entries the diff currently holds.
    pub fn cells_diff_len(&self) -> (n: usize)
        ensures
            n == self.cells_diff@.len(),
    {
        self.cells_diff.len()
    }

    /// Read-only view of the current grid as a slice; the same view `cells`
    /// gives.
    pub fn get_cells(&self) -> (r: &[Cell])
        ensures
            r@ == self.cells@,
    {
        self.cells.as_slice()
    }

    /// The number of cells: width times height.
    pub fn size(&self) -> (n: u32)
        ensures
            n == self.size,
            self.wf() ==> n == self.width * self.height,
    {
        self.size
    }

    /// The number of columns.
    pub fn width(&self) -> (w: u32)
        ensures
            w == self.width,
    {
        self.width
    }

    /// The number of rows.
    pub fn height(&self) -> (h: u32)
        ensures
            h == self.height,
    {
        self.height
    }

    /// Choose the topology: true for a compact (toroidal) universe, false for
    /// a bounded one. Takes effect on every later neighbor lookup.
    pub fn set_compact(&mut self, val: bool)
        ensures
            final(self).is_compact == val,
            final(self).width == old(self).width,
            final(self).height == old(self).height,
            final(self).size == old(self).size,
            final(self).cells == old(self).cells,
            final(self).cells_next == old(self).cells_next,
            final(self).cells_diff == old(self).cells_diff,
    {
        self.is_compact = val;
    }

    /// Flip the cell at (row, col) and append its index to the diff, on top
    /// of whatever diff entries are already there.
    pub fn toggle_cell(&mut self, row: u32, col: u32)
        requires
            old(self).wf(),
            row < old(self).height,
            col < old(self).width,
        ensures
            final(self).wf(),
            final(self).width == old(self).width,
            final(self).height == old(self).height,
            final(self).size == old(self).size,
            final(self).is_compact == old(self).is_compact,
            final(self).cells_next == old(self).cells_next,
            final(self).cells@ == old(self).cells@.update(
                row * old(self).width + col,
                flipped(old(self).cells@[row * old(self).width + col]),
            ),
            final(self).cells_diff@ == old(self).cells_diff@.push(
                (row * old(self).width + col) as usize,
            ),
    {
        let idx = self.get_index(row, col);
        let mut cell = self.cells[idx];
        cell.toggle();
        self.cells.set(idx, cell);
        self.cells_diff.push(idx);
    }

    /// Reset every cell to Dead. The diff is rebuilt to list every index,
    /// whether or not the cell actually changed: the full-grid report is part
    /// of the contract, kept for the reader of the diff.
    pub fn set_all_dead(&mut self)
        requires
            old(self).wf(),
        ensures
            final(self).wf(),
            final(self).width == old(self).width,
            final(self).height == old(self).height,
            final(self).size == old(self).size,
            final(self).is_compact == old(self).is_compact,
            final(self).cells_next == old(self).cells_next,
            final(self).cells@ == dead_grid(old(self).size as nat),
            final(self).cells_diff@ == all_indices(old(self).size as nat),
    {
        self.cells_diff.clear();
        let mut i: usize = 0;
        let n: usize = self.cells.len();
        while i < n
            invariant
                old(self).wf(),
                self.width == old(self).width,
                self.height == old(self).height,
                self.size == old(self).size,
                self.is_compact == old(self).is_compact,
                self.cells_next == old(self).cells_next,
                n == self.size,
                self.cells@.len() == n,
                i <= n,
                forall|k: int| 0 <= k < i ==> self.cells@[k] is Dead,
                self.cells_diff@ == all_indices(i as nat),
            decreases n - i,
        {
            self.cells.set(i, Cell::Dead);
            self.cells_diff.push(i);
            proof {
                assert(self.cells_diff@ =~= all_indices((i + 1) as nat));
            }
            i = i + 1;
        }
        proof {
            assert(self.cells@ =~= dead_grid(old(self).size as nat));
        }
    }

    /// Set every cell from one draw of the caller's randomness source, one
    /// draw per cell in row-major order: true is Alive, false is Dead. The
    /// diff is rebuilt to list every index, changed or not.
    pub fn set_random(&mut self, draws: &Vec<bool>)
        requires
            old(self).wf(),
            draws@.len() == old(self).size,
        ensures
            final(self).wf(),
            final(self).width == old(self).width,
            final(self).height == old(self).height,
            final(self).size == old(self).size,
            final(self).is_compact == old(self).is_compact,
            final(self).cells_next == old(self).cells_next,
            final(self).cells@ == grid_of_draws(draws@),
            final(self).cells_diff@ == all_indices(old(self).size as nat),
    {
        self.cells_diff.clear();
        let mut i: usize = 0;
        let n: usize = self.cells.len();
        while i < n
            invariant
                old(self).wf(),
                self.width == old(self).width,
                self.height == old(self).height,
                self.size == old(self).size,
                self.is_compact == old(self).is_compact,
                self.cells_next == old(self).cells_next,
                draws@.len() == self.size,
                n == self.size,
                self.cells@.len() == n,
                i <= n,
                forall|k: int| 0 <= k < i ==> self.cells@[k] == grid_of_draws(draws@)[k],
                self.cells_diff@ == all_indices(i as nat),
            decreases n - i,
        {
            let cell = if draws[i] {
                Cell::Alive
            } else {
                Cell::Dead
            };
            self.cells.set(i, cell);
            self.cells_diff.push(i);
            proof {
                assert(self.cells_diff@ =~= all_indices((i + 1) as nat));
            }
            i = i + 1;
        }
        proof {
            assert(self.cells@ =~= grid_of_draws(draws@));
        }
    }

    /// Stamp one signed (row, col) point Alive, resolved by the topology: a
    /// compact universe wraps both axes by full modulo, a bounded one
    /// silently skips a point that lies off the grid.
    fn stamp_point(&mut self, row: i64, col: i64)
        requires
            old(self).wf(),
            -6 <= row <= u32::MAX + 6,
            -6 <= col <= u32::MAX + 6,
        ensures
            final(self).wf(),
            final(self).width == old(self).width,
            final(self).height == old(self).height,
            final(self).size == old(self).size,
            final(self).is_compact == old(self).is_compact,
            final(self).cells_next == old(self).cells_next,
            (match resolve_coord(
                old(self).width as nat,
                old(self).height as nat,
                old(self).is_compact,
                row as int,
                col as int,
            ) {
                Some(i) => final(self).cells@ == old(self).cells@.update(i, Cell::Alive)
                    && final(self).cells_diff@ == old(self).cells_diff@.push(i as usize),
                None => final(self).cells@ == old(self).cells@ && final(self).cells_diff@
                    == old(self).cells_diff@,
            }),
    {
        if self.is_compact {
            let rr = wrap_mod(row, self.height);
            let cc = wrap_mod(col, self.width);
            let idx = self.get_index(rr, cc);
            self.cells.set(idx, Cell::Alive);
            self.cells_diff.push(idx);
        } else {
            if 0 <= row && row < self.height as i64 && 0 <= col && col < self.width as i64 {
                let idx = self.get_index(row as u32, col as u32);
                self.cells.set(idx, Cell::Alive);
                self.cells_diff.push(idx);
            }
        }
    }

    /// Stamp every point of a signed list in order, each resolved by the
    /// topology.
    fn stamp_all(&mut self, pts: &Vec<(i64, i64)>)
        requires
            old(self).wf(),
            forall|j: int|
                0 <= j < pts@.len() ==> -6 <= (#[trigger] pts@[j]).0 <= u32::MAX + 6 && -6
                    <= pts@[j].1 <= u32::MAX + 6,
        ensures
            final(self).wf(),
            final(self).width == old(self).width,
            final(self).height == old(self).height,
            final(self).size == old(self).size,
            final(self).is_compact == old(self).is_compact,
            final(self).cells_next == old(self).cells_next,
            final(self).cells@ == stamp_grid(
                old(self).cells@,
                old(self).width as nat,
                old(self).height as nat,
                old(self).is_compact,
                points_of_i64(pts@),
                pts@.len() as int,
            ),
            final(self).cells_diff@ == stamp_diff(
                old(self).cells_diff@,
                old(self).width as nat,
                old(self).height as nat,
                old(self).is_compact,
                points_of_i64(pts@),
                pts@.len() as int,
            ),
    {
        let ghost g0 = self.cells@;
        let ghost d0 = self.cells_diff@;
        let ghost w = self.width as nat;
        let ghost h = self.height as nat;
        let ghost cp = self.is_compact;
        let ghost ps = points_of_i64(pts@);
        let mut k: usize = 0;
        while k < pts.len()
            invariant
                self.wf(),
                self.width == old(self).width,
                self.height == old(self).height,
                self.size == old(self).size,
                self.is_compact == old(self).is_compact,
                self.cells_next == old(self).cells_next,
                g0 == old(self).cells@,
                d0 == old(self).cells_diff@,
                w == self.width as nat,
                h == self.height as nat,
                cp == self.is_compact,
                ps == points_of_i64(pts@),
                forall|j: int|
                    0 <= j < pts@.len() ==> -6 <= (#[trigger] pts@[j]).0 <= u32::MAX + 6 && -6
                        <= pts@[j].1 <= u32::MAX + 6,
                k <= pts@.len(),
                self.cells@ == stamp_grid(g0, w, h, cp, ps, k as int),
                self.cells_diff@ == stamp_diff(d0, w, h, cp, ps, k as int),
            decreases pts@.len() - k,
        {
            let p = pts[k];
            self.stamp_point(p.0, p.1);
            proof {
                assert(self.cells@ == stamp_grid(g0, w, h, cp, ps, k + 1));
                assert(self.cells_diff@ == stamp_diff(d0, w, h, cp, ps, k + 1));
            }
            k = k + 1;
        }
    }

    /// Stamp each unsigned (row, col) of the list Alive, resolved by the
    /// topology. The rest of the grid is left as it is, and the landing index
    /// of each kept point is appended to the existing diff in list order.
    pub fn set_cells(&mut self, new_cells: &Vec<(u32, u32)>)
        requires
            old(self).wf(),
        ensures
            final(self).wf(),
            final(self).width == old(self).width,
            final(self).height == old(self).height,
            final(self).size == old(self).size,
            final(self).is_compact == old(self).is_compact,
            final(self).cells_next == old(self).cells_next,
            final(self).cells@ == stamp_grid(
                old(self).cells@,
                old(self).width as nat,
                old(self).height as nat,
                old(self).is_compact,
                points_of_u32(new_cells@),
                new_cells@.len() as int,
            ),
            final(self).cells_diff@ == stamp_diff(
                old(self).cells_diff@,
                old(self).width as nat,
                old(self).height as nat,
                old(self).is_compact,
                points_of_u32(new_cells@),
                new_cells@.len() as int,
            ),
    {
        let ghost g0 = self.cells@;
        let ghost d0 = self.cells_diff@;
        let ghost w = self.width as nat;
        let ghost h = self.height as nat;
        let ghost cp = self.is_compact;
        let ghost ps = points_of_u32(new_cells@);
        let mut k: usize = 0;
        while k < new_cells.len()
            invariant
                self.wf(),
                self.width == old(self).width,
                self.height == old(self).height,
                self.size == old(self).size,
                self.is_compact == old(self).is_compact,
                self.cells_next == old(self).cells_next,
                g0 == old(self).cells@,
                d0 == old(self).cells_diff@,
                w == self.width as nat,
                h == self.height as nat,
                cp == self.is_compact,
                ps == points_of_u32(new_cells@),
                k <= new_cells@.len(),
                self.cells@ == stamp_grid(g0, w, h, cp, ps, k as int),
                self.cells_diff@ == stamp_diff(d0, w, h, cp, ps, k as int),
            decreases new_cells@.len() - k,
        {
            let p = new_cells[k];
            self.stamp_point(p.0 as i64, p.1 as i64);
            proof {
                assert(self.cells@ == stamp_grid(g0, w, h, cp, ps, k + 1));
                assert(self.cells_diff@ == stamp_diff(d0, w, h, cp, ps, k + 1));
            }
            k = k + 1;
        }
    }

    /// Stamp a glider anchored at (row, col). The offsets are applied with
    /// signed arithmetic before topology resolution, so an anchor at the edge
    /// wraps on a torus and sheds off-grid cells on a bounded grid.
    pub fn spawn_glider(&mut self, row: u32, col: u32)
        requires
            old(self).wf(),
        ensures
            final(self).wf(),
            final(self).width == old(self).width,
            final(self).height == old(self).height,
            final(self).size == old(self).size,
            final(self).is_compact == old(self).is_compact,
            final(self).cells_next == old(self).cells_next,
            final(self).cells@ == stamp_grid(
                old(self).cells@,
                old(self).width as nat,
                old(self).height as nat,
                old(self).is_compact,
                glider_points(row as int, col as int),
                5,
            ),
            final(self).cells_diff@ == stamp_diff(
                old(self).cells_diff@,
                old(self).width as nat,
                old(self).height as nat,
                old(self).is_compact,
                glider_points(row as int, col as int),
                5,
            ),
    {
        let r: i64 = row as i64;
        let c: i64 = col as i64;
        let pts: Vec<(i64, i64)> = vec![
            (r, c - 1),
            (r + 1, c),
            (r - 1, c + 1),
            (r, c + 1),
            (r + 1, c + 1),
        ];
        proof {
            assert(points_of_i64(pts@) =~= glider_points(row as int, col as int));
        }
        self.stamp_all(&pts);
    }

    /// Stamp a pulsar anchored at (row, col): its outer rim, then its inner
    /// arms. As with the glider, offsets are signed and resolved per point by
    /// the topology.
    pub fn spawn_pulsar(&mut self, row: u32, col: u32)
        requires
            old(self).wf(),
        ensures
            final(self).wf(),
            final(self).width == old(self).width,
            final(self).height == old(self).height,
            final(self).size == old(self).size,
            final(self).is_compact == old(self).is_compact,
            final(self).cells_next == old(self).cells_next,
            final(self).cells@ == stamp_grid(
                old(self).cells@,
                old(self).width as nat,
                old(self).height as nat,
                old(self).is_compact,
                pulsar_points(row as int, col as int),
                48,
            ),
            final(self).cells_diff@ == stamp_diff(
                old(self).cells_diff@,
                old(self).width as nat,
                old(self).height as nat,
                old(self).is_compact,
                pulsar_points(row as int, col as int),
                48,
            ),
    {
        let r: i64 = row as i64;
        let c: i64 = col as i64;
        let pts: Vec<(i64, i64)> = vec![
            (r - 6, c - 4),
            (r - 6, c - 3),
            (r - 6, c - 2),
            (r - 6, c + 2),
            (r - 6, c + 3),
            (r - 6, c + 4),
            (r + 6, c - 4),
            (r + 6, c - 3),
            (r + 6, c - 2),
            (r + 6, c + 2),
            (r + 6, c + 3),
            (r + 6, c + 4),
            (r - 4, c - 6),
            (r - 3, c - 6),
            (r - 2, c - 6),
            (r - 4, c + 6),
            (r - 3, c + 6),
            (r - 2, c + 6),
            (r + 4, c - 6),
            (r + 3, c - 6),
            (r + 2, c - 6),
            (r + 4, c + 6),
            (r + 3, c + 6),
            (r + 2, c + 6),
            (r - 1, c - 4),
            (r - 1, c - 3),
            (r - 1, c - 2),
            (r - 1, c + 2),
            (r - 1, c + 3),
            (r - 1, c + 4),
            (r + 1, c - 4),
            (r + 1, c - 3),
            (r + 1, c - 2),
            (r + 1, c + 2),
            (r + 1, c + 3),
            (r + 1, c + 4),
            (r + 4, c - 1),
            (r + 3, c - 1),
            (r + 2, c - 1),
            (r + 4, c + 1),
            (r + 3, c + 1),
            (r + 2, c + 1),
            (r - 4, c - 1),
            (r - 3, c - 1),
            (r - 2, c - 1),
            (r - 4, c + 1),
            (r - 3, c + 1),
            (r - 2, c + 1),
        ];
        proof {
            assert(points_of_i64(pts@) =~= pulsar_points(row as int, col as int));
        }
        self.stamp_all(&pts);
    }
}

/// Euclidean remainder of v by m, for v as low as -6: the wrapped coordinate
/// of a stamped point on a torus.
fn wrap_mod(v: i64, m: u32) -> (r: u32)
    requires
        1 <= m,
        -6 <= v <= u32::MAX + 6,
    ensures
        r as int == v as int % m as int,
        r < m,
{
    proof {
        lemma_mod_multiples_vanish(6, v as int, m as int);
    }
    let shifted: i64 = v + 6 * (m as i64);
    ((shifted as u64) % (m as u64)) as u32
}

} // verus!
