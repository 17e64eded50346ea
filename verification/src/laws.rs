//! The laws the engine answers for: proof functions over the model that pin
//! down the rule table, the diff, determinism, and the bulk clear.

use vstd::prelude::*;

verus! {

use crate::model::all_indices;
use crate::model::dead_grid;
use crate::model::diff_below;
use crate::model::next_gen;
use crate::model::rule;
use crate::universe::Cell;
use crate::universe::Universe;

/// The rule table is exhaustive and exact: for every (state, live-neighbor
/// count) pair, the next state is the one the Life rule names — a live cell
/// dies under 2 (underpopulation), lives on at 2 or 3, dies over 3
/// (overpopulation); a dead cell comes alive at exactly 3 and otherwise
/// stays dead.
pub proof fn lemma_rule_table(c: Cell, live: nat)
    requires
        live <= 8,
    ensures
        c is Alive && live < 2 ==> rule(c, live) is Dead,
        c is Alive && (live == 2 || live == 3) ==> rule(c, live) is Alive,
        c is Alive && live > 3 ==> rule(c, live) is Dead,
        c is Dead && live == 3 ==> rule(c, live) is Alive,
        c is Dead && live != 3 ==> rule(c, live) is Dead,
{
}

/// Advancing a generation is deterministic: the next grid, and with it the
/// diff a tick reports, are functions of the current grid, the dimensions,
/// and the topology alone — two universes that agree on those tick alike.
pub proof fn lemma_tick_deterministic(a: Universe, b: Universe)
    requires
        a.cells@ == b.cells@,
        a.width == b.width,
        a.height == b.height,
        a.is_compact == b.is_compact,
    ensures
        next_gen(a.cells@, a.width as nat, a.height as nat, a.is_compact) == next_gen(
            b.cells@,
            b.width as nat,
            b.height as nat,
            b.is_compact,
        ),
        diff_below(
            a.cells@,
            next_gen(a.cells@, a.width as nat, a.height as nat, a.is_compact),
            a.cells@.len() as int,
        ) == diff_below(
            b.cells@,
            next_gen(b.cells@, b.width as nat, b.height as nat, b.is_compact),
            b.cells@.len() as int,
        ),
{
}

/// The diff is complete and exact: every index where the two grids differ
/// appears in it, no index where they agree does, every entry is such a
/// changed index, and the entries are strictly increasing — row-major order,
/// each index at most once.
pub proof fn lemma_diff_complete(a: Seq<Cell>, b: Seq<Cell>, n: int)
    requires
        0 <= n <= a.len(),
        a.len() == b.len(),
        a.len() <= usize::MAX,
    ensures
        forall|i: int| 0 <= i < n && a[i] != b[i] ==> diff_below(a, b, n).contains(i as usize),
        forall|i: int| 0 <= i < n && a[i] == b[i] ==> !diff_below(a, b, n).contains(i as usize),
        forall|j: int|
            0 <= j < diff_below(a, b, n).len() ==> (#[trigger] diff_below(a, b, n)[j]) < n && a[
                diff_below(a, b, n)[j] as int
            ] != b[diff_below(a, b, n)[j] as int],
        forall|j: int, k: int|
            0 <= j < k < diff_below(a, b, n).len() ==> diff_below(a, b, n)[j] < diff_below(
                a,
                b,
                n,
            )[k],
    decreases n,
{
    if n > 0 {
        lemma_diff_complete(a, b, n - 1);
        let prev = diff_below(a, b, n - 1);
        let cur = diff_below(a, b, n);
        if a[n - 1] != b[n - 1] {
            assert(cur == prev.push((n - 1) as usize));
            assert forall|i: int| 0 <= i < n && a[i] != b[i] implies cur.contains(i as usize) by {
                if i < n - 1 {
                    let w = choose|w: int| 0 <= w < prev.len() && prev[w] == i as usize;
                    assert(cur[w] == i as usize);
                } else {
                    assert(cur[cur.len() - 1] == (n - 1) as usize);
                }
            }
            assert forall|i: int| 0 <= i < n && a[i] == b[i] implies !cur.contains(i as usize) by {
                if cur.contains(i as usize) {
                    let w = choose|w: int| 0 <= w < cur.len() && cur[w] == i as usize;
                    if w < prev.len() {
                        assert(prev.contains(i as usize));
                    }
                    assert(false);
                }
            }
        } else {
            assert(cur == prev);
            assert forall|i: int| 0 <= i < n && a[i] == b[i] implies !cur.contains(i as usize) by {
                if cur.contains(i as usize) {
                    let w = choose|w: int| 0 <= w < cur.len() && cur[w] == i as usize;
                    assert(cur[w] < n - 1);
                    assert(prev.contains(i as usize));
                    assert(false);
                }
            }
        }
    }
}

/// Clearing the grid is idempotent: what set_all_dead leaves behind depends
/// only on the universe's size, so calling it twice in a row leaves the grid
/// all-Dead both times, and the diff after the second call still lists every
/// index — the unconditional full-grid report, even though no cell changed.
pub proof fn lemma_set_all_dead_idempotent(u0: Universe, u1: Universe, u2: Universe)
    requires
        u1.size == u0.size,
        u1.cells@ == dead_grid(u0.size as nat),
        u1.cells_diff@ == all_indices(u0.size as nat),
        u2.size == u1.size,
        u2.cells@ == dead_grid(u1.size as nat),
        u2.cells_diff@ == all_indices(u1.size as nat),
    ensures
        u2.cells@ == u1.cells@,
        u2.cells_diff@ == u1.cells_diff@,
        forall|i: int| 0 <= i < u1.cells@.len() ==> u1.cells@[i] is Dead,
        forall|i: int| 0 <= i < u2.cells@.len() ==> u2.cells@[i] is Dead,
        u2.cells_diff@.len() == u2.size,
        forall|i: int| 0 <= i < u2.cells_diff@.len() ==> u2.cells_diff@[i] == i as usize,
{
}

} // verus!
