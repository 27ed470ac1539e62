use game_of_life::grid::Grid;

fn live_cells(g: &Grid) -> Vec<(usize, usize)> {
    let mut out = Vec::new();
    for r in 0..g.height as usize {
        for c in 0..g.width as usize {
            if g.get(r, c) {
                out.push((r, c));
            }
        }
    }
    out
}

#[test]
fn new_grid_is_all_dead() {
    let g = Grid::new(4, 3);
    assert_eq!(g.width, 4);
    assert_eq!(g.height, 3);
    assert!(live_cells(&g).is_empty());
}

#[test]
fn set_cell_and_get() {
    let mut g = Grid::new(5, 5);
    assert!(g.set_cell(2, 3, true));
    assert!(g.get(2, 3));
    assert!(!g.get(3, 2));
    assert!(g.set_cell(2, 3, false));
    assert!(!g.get(2, 3));
}

#[test]
fn set_cell_out_of_bounds_is_rejected() {
    let mut g = Grid::new(3, 3);
    assert!(!g.set_cell(3, 0, true));
    assert!(!g.set_cell(0, 3, true));
    assert!(!g.set_cell(7, 7, true));
    assert!(live_cells(&g).is_empty());
}

#[test]
fn resize_discards_content() {
    let mut g = Grid::new(3, 3);
    assert!(g.set_cell(1, 1, true));
    g.resize(4, 2);
    assert_eq!(g.width, 4);
    assert_eq!(g.height, 2);
    assert!(live_cells(&g).is_empty());
}

#[test]
fn lone_cell_dies_in_one_step() {
    let mut g = Grid::new(5, 5);
    assert!(g.set_cell(2, 2, true));
    g.step();
    assert!(live_cells(&g).is_empty());
}

#[test]
fn blinker_oscillates() {
    let mut g = Grid::new(5, 5);
    assert!(g.set_cell(2, 1, true));
    assert!(g.set_cell(2, 2, true));
    assert!(g.set_cell(2, 3, true));
    g.step();
    assert_eq!(live_cells(&g), vec![(1, 2), (2, 2), (3, 2)]);
    g.step();
    assert_eq!(live_cells(&g), vec![(2, 1), (2, 2), (2, 3)]);
}

#[test]
fn neighbor_count_wraps_at_corner() {
    let mut g = Grid::new(3, 3);
    assert!(g.set_cell(2, 2, true));
    // (2, 2) is a wrapped neighbor of the opposite corner.
    assert_eq!(g.live_neighbor_count(0, 0), 1);
    // ... and an ordinary neighbor of the center.
    assert_eq!(g.live_neighbor_count(1, 1), 1);
    // The live cell does not count itself.
    assert_eq!(g.live_neighbor_count(2, 2), 0);
}

#[test]
fn neighbor_count_is_eight_on_1x1() {
    let mut g = Grid::new(1, 1);
    assert!(g.set_cell(0, 0, true));
    // All eight wrapped neighbor coordinates coincide with the cell itself.
    assert_eq!(g.live_neighbor_count(0, 0), 8);
}

#[test]
fn all_live_2x2_dies_of_overpopulation() {
    let mut g = Grid::new(2, 2);
    for r in 0..2 {
        for c in 0..2 {
            assert!(g.set_cell(r, c, true));
        }
    }
    // With wraparound every cell sees 8 live neighbors (with multiplicity).
    assert_eq!(g.live_neighbor_count(0, 0), 8);
    g.step();
    assert!(live_cells(&g).is_empty());
}

#[test]
fn step_on_degenerate_grids_is_a_noop() {
    let mut g = Grid::new(0, 0);
    g.step();
    assert_eq!(g.width, 0);
    assert_eq!(g.height, 0);
    let mut g2 = Grid::new(5, 0);
    g2.step();
    let mut g3 = Grid::new(0, 5);
    g3.step();
    assert_eq!(g3.height, 5);
}

#[test]
fn cells_row_major_layout() {
    let mut g = Grid::new(3, 2);
    assert!(g.set_cell(0, 1, true));
    assert!(g.set_cell(1, 2, true));
    let flat = g.cells_row_major();
    assert_eq!(flat, vec![false, true, false, false, false, true]);
}
