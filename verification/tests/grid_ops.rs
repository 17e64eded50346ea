//! Construction, queries, and the explicit mutation operations.

use game_of_life::universe::{Cell, Universe};

fn alive_cells(u: &Universe) -> Vec<(u32, u32)> {
    let mut v = Vec::new();
    for r in 0..u.height() {
        for c in 0..u.width() {
            if u.get_cell(r, c) == Cell::Alive {
                v.push((r, c));
            }
        }
    }
    v
}

#[test]
fn new_starts_all_dead() {
    let u = Universe::new(4, 3);
    assert_eq!(u.size(), 12);
    assert_eq!(u.width(), 4);
    assert_eq!(u.height(), 3);
    assert_eq!(u.cells().len(), 12);
    assert!(u.cells().iter().all(|&c| c == Cell::Dead));
    // the scratch buffer is zero-initialized too
    assert_eq!(u.cells_next.len(), 12);
    assert!(u.cells_next.iter().all(|&c| c == Cell::Dead));
    assert_eq!(u.cells_diff_len(), 0);
    assert!(u.cells_diff().is_empty());
}

#[test]
fn get_index_is_row_major() {
    let u = Universe::new(7, 5);
    assert_eq!(u.get_index(0, 0), 0);
    assert_eq!(u.get_index(0, 6), 6);
    assert_eq!(u.get_index(1, 0), 7);
    assert_eq!(u.get_index(4, 6), 34);
}

#[test]
fn get_cell_off_grid_is_dead() {
    let mut u = Universe::new(3, 3);
    u.set_cells(&vec![(2, 2)]);
    assert_eq!(u.get_cell(2, 2), Cell::Alive);
    assert_eq!(u.get_cell(3, 0), Cell::Dead);
    assert_eq!(u.get_cell(0, 3), Cell::Dead);
    assert_eq!(u.get_cell(100, 100), Cell::Dead);
}

#[test]
fn toggle_cell_flips_and_appends() {
    let mut u = Universe::new(3, 3);
    u.toggle_cell(1, 2);
    assert_eq!(u.get_cell(1, 2), Cell::Alive);
    assert_eq!(u.cells_diff(), &vec![5]);
    u.toggle_cell(1, 2);
    assert_eq!(u.get_cell(1, 2), Cell::Dead);
    // toggling does not clear the diff: both edits are listed
    assert_eq!(u.cells_diff(), &vec![5, 5]);
}

#[test]
fn set_all_dead_idempotent() {
    let mut u = Universe::new(3, 2);
    u.set_cells(&vec![(0, 0), (1, 2)]);
    u.set_all_dead();
    assert!(u.cells().iter().all(|&c| c == Cell::Dead));
    assert_eq!(u.cells_diff(), &vec![0, 1, 2, 3, 4, 5]);
    // a second call changes nothing, yet the diff again lists every index
    u.set_all_dead();
    assert!(u.cells().iter().all(|&c| c == Cell::Dead));
    assert_eq!(u.cells_diff(), &vec![0, 1, 2, 3, 4, 5]);
}

#[test]
fn set_random_follows_the_draws() {
    let mut u = Universe::new(2, 2);
    u.set_random(&vec![true, false, false, true]);
    assert_eq!(
        u.cells(),
        &vec![Cell::Alive, Cell::Dead, Cell::Dead, Cell::Alive]
    );
    assert_eq!(u.cells_diff(), &vec![0, 1, 2, 3]);
    // drawing all false kills everything, and the diff is again full
    u.set_random(&vec![false, false, false, false]);
    assert!(u.cells().iter().all(|&c| c == Cell::Dead));
    assert_eq!(u.cells_diff(), &vec![0, 1, 2, 3]);
}

#[test]
fn set_cells_compact() {
    let mut universe = Universe::new(3, 3);
    universe.set_cells(&vec![(1, 1), (3, 3)]);

    assert_eq!(universe.size(), 9);

    // (3, 3) wraps to (0, 0)
    assert_eq!(universe.get_cell(0, 0), Cell::Alive);
    assert_eq!(universe.get_cell(0, 1), Cell::Dead);
    assert_eq!(universe.get_cell(0, 2), Cell::Dead);

    assert_eq!(universe.get_cell(1, 0), Cell::Dead);
    assert_eq!(universe.get_cell(1, 1), Cell::Alive);
    assert_eq!(universe.get_cell(1, 2), Cell::Dead);

    assert_eq!(universe.get_cell(2, 0), Cell::Dead);
    assert_eq!(universe.get_cell(2, 1), Cell::Dead);
    assert_eq!(universe.get_cell(2, 2), Cell::Dead);
}

#[test]
fn set_cells_flat() {
    let mut universe = Universe::new(3, 3);
    universe.set_compact(false);
    universe.set_cells(&vec![(1, 1), (3, 3)]);

    // (3, 3) disappears into the void
    assert_eq!(universe.get_cell(0, 0), Cell::Dead);
    assert_eq!(universe.get_cell(0, 1), Cell::Dead);
    assert_eq!(universe.get_cell(0, 2), Cell::Dead);

    assert_eq!(universe.get_cell(1, 0), Cell::Dead);
    assert_eq!(universe.get_cell(1, 1), Cell::Alive);
    assert_eq!(universe.get_cell(1, 2), Cell::Dead);

    assert_eq!(universe.get_cell(2, 0), Cell::Dead);
    assert_eq!(universe.get_cell(2, 1), Cell::Dead);
    assert_eq!(universe.get_cell(2, 2), Cell::Dead);
}

#[test]
fn set_cells_is_additive_and_lists_duplicates() {
    let mut u = Universe::new(3, 3);
    u.set_cells(&vec![(0, 0)]);
    u.set_cells(&vec![(2, 2), (2, 2)]);
    // the earlier cell is untouched, the duplicate lands twice in the diff
    assert_eq!(alive_cells(&u), vec![(0, 0), (2, 2)]);
    assert_eq!(u.cells_diff(), &vec![0, 8, 8]);
}

#[test]
fn set_compact_switches_topology_in_place() {
    let mut u = Universe::new(3, 3);
    u.set_compact(false);
    u.set_cells(&vec![(3, 3)]); // dropped: no wrap on a bounded grid
    assert_eq!(alive_cells(&u), Vec::<(u32, u32)>::new());
    u.set_compact(true);
    u.set_cells(&vec![(3, 3)]); // wraps to (0, 0)
    assert_eq!(alive_cells(&u), vec![(0, 0)]);
}
