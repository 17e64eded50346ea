//! Pattern stamping: glider and pulsar anchors, edge behavior under both
//! topologies.

use game_of_life::universe::{Cell, Universe};

fn alive_cells(u: &Universe) -> Vec<(u32, u32)> {
    let mut v = Vec::new();
    for r in 0..u.height() {
        for c in 0..u.width() {
            if u.get_cell(r, c) == Cell::Alive {
                v.push((r, c));
            }
        }
    }
    v
}

#[test]
fn spawn_glider_center() {
    let mut u = Universe::new(6, 6);
    u.spawn_glider(2, 2);
    assert_eq!(
        alive_cells(&u),
        vec![(1, 3), (2, 1), (2, 3), (3, 2), (3, 3)]
    );
    assert_eq!(u.cells_diff_len(), 5);
}

#[test]
fn spawn_glider_at_origin_wraps_on_torus() {
    let mut u = Universe::new(6, 6);
    u.spawn_glider(0, 0);
    // (0, -1) wraps to (0, 5) and (-1, 1) to (5, 1)
    assert_eq!(
        alive_cells(&u),
        vec![(0, 1), (0, 5), (1, 0), (1, 1), (5, 1)]
    );
    assert_eq!(u.cells_diff_len(), 5);
}

#[test]
fn spawn_glider_at_origin_sheds_on_bounded_grid() {
    let mut u = Universe::new(6, 6);
    u.set_compact(false);
    u.spawn_glider(0, 0);
    // (0, -1) and (-1, 1) fall off the grid and are dropped
    assert_eq!(alive_cells(&u), vec![(0, 1), (1, 0), (1, 1)]);
    assert_eq!(u.cells_diff_len(), 3);
}

#[test]
fn spawn_pulsar_places_48_cells() {
    let mut u = Universe::new(17, 17);
    u.spawn_pulsar(8, 8);
    assert_eq!(alive_cells(&u).len(), 48);
    assert_eq!(u.cells_diff_len(), 48);
    // the rim reaches exactly 6 cells out from the anchor
    assert_eq!(u.get_cell(2, 4), Cell::Alive);
    assert_eq!(u.get_cell(2, 5), Cell::Alive);
    assert_eq!(u.get_cell(2, 6), Cell::Alive);
    assert_eq!(u.get_cell(2, 7), Cell::Dead);
    assert_eq!(u.get_cell(8, 8), Cell::Dead);
}

#[test]
fn pulsar_oscillates_with_period_3() {
    let mut u = Universe::new(17, 17);
    u.spawn_pulsar(8, 8);
    let start = u.get_cells().to_vec();
    u.tick();
    assert_ne!(u.get_cells(), &start[..]);
    u.tick();
    u.tick();
    assert_eq!(u.get_cells(), &start[..]);
}

#[test]
fn spawn_pulsar_near_edge_sheds_on_bounded_grid() {
    let mut u = Universe::new(17, 17);
    u.set_compact(false);
    u.spawn_pulsar(0, 0);
    // only the quadrant of offsets with nonnegative coordinates survives
    assert_eq!(alive_cells(&u).len(), 12);
    let mut t = Universe::new(17, 17);
    t.spawn_pulsar(0, 0);
    // on the torus every one of the 48 cells wraps somewhere
    assert_eq!(alive_cells(&t).len(), 48);
}
