//! Generation advance: the rule table, the diff, determinism, and the glider
//! reference runs under both topologies.

use game_of_life::universe::{next_cell_state, Cell, Universe};

fn input_glider() -> Universe {
    let mut universe = Universe::new(6, 6);
    universe.set_cells(&vec![(1, 2), (2, 3), (3, 1), (3, 2), (3, 3)]);
    universe
}

fn expected_glider_one_tick() -> Universe {
    let mut universe = Universe::new(6, 6);
    universe.set_cells(&vec![(2, 1), (2, 3), (3, 2), (3, 3), (4, 2)]);
    universe
}

fn expected_glider_ten_ticks_compact() -> Universe {
    let mut universe = Universe::new(6, 6);
    universe.set_cells(&vec![(0, 4), (0, 5), (4, 5), (5, 3), (5, 5)]);
    universe
}

fn expected_glider_ten_ticks_flat() -> Universe {
    let mut universe = Universe::new(6, 6);
    universe.set_cells(&vec![(4, 5), (5, 4), (5, 5)]);
    universe
}

#[test]
fn rule_table_exhaustive() {
    for live in 0u8..=8 {
        let expected_alive = match live {
            2 | 3 => Cell::Alive, // stable
            _ => Cell::Dead,      // under- or overpopulation
        };
        assert_eq!(next_cell_state(Cell::Alive, live), expected_alive);
        let expected_dead = if live == 3 {
            Cell::Alive // reproduction
        } else {
            Cell::Dead
        };
        assert_eq!(next_cell_state(Cell::Dead, live), expected_dead);
    }
}

#[test]
fn one_tick_compact() {
    let mut input_universe = input_glider();
    let expected_universe = expected_glider_one_tick();

    input_universe.tick();
    assert_eq!(input_universe.get_cells(), expected_universe.get_cells());
}

#[test]
fn ten_ticks_compact() {
    let mut input_universe = input_glider();
    let expected_universe = expected_glider_ten_ticks_compact();

    for _ in 0..10 {
        input_universe.tick();
    }

    assert_eq!(input_universe.get_cells(), expected_universe.get_cells());
}

#[test]
fn ten_ticks_flat() {
    let mut input_universe = input_glider();
    input_universe.set_compact(false);
    let expected_universe = expected_glider_ten_ticks_flat();

    for _ in 0..10 {
        input_universe.tick();
    }

    assert_eq!(input_universe.get_cells(), expected_universe.get_cells());
}

#[test]
fn ten_ticks_topologies_diverge() {
    let mut compact = input_glider();
    let mut flat = input_glider();
    flat.set_compact(false);
    for _ in 0..10 {
        compact.tick();
        flat.tick();
    }
    assert_ne!(compact.get_cells(), flat.get_cells());
}

#[test]
fn tick_is_deterministic() {
    let mut a = input_glider();
    let mut b = input_glider();
    for _ in 0..5 {
        a.tick();
        b.tick();
    }
    assert_eq!(a.get_cells(), b.get_cells());
    assert_eq!(a.cells_diff(), b.cells_diff());
}

#[test]
fn diff_lists_exactly_the_changes_in_row_major_order() {
    // glider, one tick: cells 8 and 19 die, 13 and 26 come alive
    let mut u = input_glider();
    let before = u.get_cells().to_vec();
    u.tick();
    assert_eq!(u.cells_diff(), &vec![8, 13, 19, 26]);
    assert_eq!(u.cells_diff_len(), 4);
    let after = u.get_cells().to_vec();
    for i in 0..36 {
        let changed = before[i] != after[i];
        assert_eq!(changed, u.cells_diff().contains(&i));
    }

    // blinker on a bounded 5x5: the horizontal bar flips to vertical
    let mut b = Universe::new(5, 5);
    b.set_compact(false);
    b.set_cells(&vec![(2, 1), (2, 2), (2, 3)]);
    b.tick();
    assert_eq!(b.cells_diff(), &vec![7, 11, 13, 17]);
}

#[test]
fn empty_grid_stays_empty_with_empty_diff() {
    let mut u = Universe::new(4, 4);
    u.tick();
    assert!(u.cells().iter().all(|&c| c == Cell::Dead));
    assert_eq!(u.cells_diff_len(), 0);
}

#[test]
fn lone_cell_dies_either_topology() {
    // on a 1x1 torus the cell's 8 neighbors are all itself, count 8: death
    let mut t = Universe::new(1, 1);
    t.set_cells(&vec![(0, 0)]);
    t.tick();
    assert_eq!(t.get_cell(0, 0), Cell::Dead);
    assert_eq!(t.cells_diff(), &vec![0]);
    // bounded: 0 live neighbors, underpopulation
    let mut b = Universe::new(1, 1);
    b.set_compact(false);
    b.set_cells(&vec![(0, 0)]);
    b.tick();
    assert_eq!(b.get_cell(0, 0), Cell::Dead);
    assert_eq!(b.cells_diff(), &vec![0]);
}

#[test]
fn block_is_still_life() {
    let mut u = Universe::new(4, 4);
    u.set_cells(&vec![(1, 1), (1, 2), (2, 1), (2, 2)]);
    let before = u.get_cells().to_vec();
    u.tick();
    assert_eq!(u.get_cells(), &before[..]);
    assert_eq!(u.cells_diff_len(), 0);
}
