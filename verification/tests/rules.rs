use game_of_life::grid::Grid;
use game_of_life::rules::advance;
use game_of_life::rules::compute_neighbor_counts;
use game_of_life::rules::step_generation;

fn grid_from(rows: usize, cols: usize, live: &[(usize, usize)]) -> Grid {
    let mut g = Grid::new(rows, cols);
    for &(r, c) in live {
        g.set(r, c, true);
    }
    g
}

fn live_cells(g: &Grid) -> Vec<(usize, usize)> {
    let mut out = Vec::new();
    for r in 0..g.num_rows() {
        for c in 0..g.num_cols() {
            if g.get(r, c) {
                out.push((r, c));
            }
        }
    }
    out
}

#[test]
fn counts_are_exact_and_bounded() {
    let g = grid_from(4, 4, &[(1, 1), (1, 2), (2, 1), (2, 2)]);
    let counts = compute_neighbor_counts(&g);
    // Each block cell sees the other three block cells.
    assert_eq!(counts[1][1], 3);
    assert_eq!(counts[1][2], 3);
    assert_eq!(counts[2][1], 3);
    assert_eq!(counts[2][2], 3);
    // Cells diagonal to the block see exactly one block cell.
    assert_eq!(counts[0][0], 1);
    assert_eq!(counts[3][3], 1);
    // Edge cells beside two block cells see both.
    assert_eq!(counts[1][0], 2);
    assert_eq!(counts[0][1], 2);
    for r in 0..4 {
        for c in 0..4 {
            assert!(counts[r][c] <= 8);
        }
    }
}

#[test]
fn corner_count_never_exceeds_three() {
    let all = [
        (0, 0), (0, 1), (0, 2),
        (1, 0), (1, 1), (1, 2),
        (2, 0), (2, 1), (2, 2),
    ];
    let g = grid_from(3, 3, &all);
    let counts = compute_neighbor_counts(&g);
    // Even with every cell live, a corner has only 3 neighbors.
    assert_eq!(counts[0][0], 3);
    assert_eq!(counts[0][2], 3);
    assert_eq!(counts[2][0], 3);
    assert_eq!(counts[2][2], 3);
    assert_eq!(counts[1][1], 8);
    assert_eq!(counts[0][1], 5);
}

#[test]
fn block_is_stable() {
    let g = grid_from(4, 4, &[(1, 1), (1, 2), (2, 1), (2, 2)]);
    let counts = compute_neighbor_counts(&g);
    let next = advance(&g, &counts);
    assert_eq!(next, g);
}

#[test]
fn lone_cell_dies() {
    let g = grid_from(3, 3, &[(1, 1)]);
    let next = step_generation(&g);
    assert_eq!(live_cells(&next), Vec::new());
}

#[test]
fn l_shape_becomes_block() {
    let g = grid_from(4, 4, &[(0, 0), (0, 1), (1, 0)]);
    let next = step_generation(&g);
    // Each of the three live cells has 2 live neighbors and survives; the
    // dead cell (1, 1) has exactly 3 live neighbors and is born; every other
    // cell stays dead.
    let expected = grid_from(4, 4, &[(0, 0), (0, 1), (1, 0), (1, 1)]);
    assert_eq!(next, expected);
}

#[test]
fn advance_is_deterministic() {
    let g = grid_from(4, 4, &[(0, 0), (0, 1), (1, 0), (2, 2), (3, 1)]);
    let counts = compute_neighbor_counts(&g);
    let first = advance(&g, &counts);
    let second = advance(&g, &counts);
    assert_eq!(first, second);
    // Repeated application to its own output is a different matter: the L
    // corner evolves, so one more step need not give the same grid back.
    let counts2 = compute_neighbor_counts(&first);
    let third = advance(&first, &counts2);
    assert_ne!(third, g);
}

#[test]
fn advance_uses_only_the_snapshot() {
    // A blinker: three cells in a row flip between horizontal and vertical.
    // Evaluating with a count snapshot (rather than counts recomputed
    // mid-pass) is what makes the flip exact.
    let g = grid_from(5, 5, &[(2, 1), (2, 2), (2, 3)]);
    let next = step_generation(&g);
    let expected = grid_from(5, 5, &[(1, 2), (2, 2), (3, 2)]);
    assert_eq!(next, expected);
    let again = step_generation(&next);
    assert_eq!(again, g);
}

#[test]
fn empty_and_degenerate_grids() {
    let g = Grid::new(0, 0);
    let counts = compute_neighbor_counts(&g);
    assert_eq!(counts.len(), 0);
    let next = step_generation(&g);
    assert_eq!(next.num_rows(), 0);

    let one = grid_from(1, 1, &[(0, 0)]);
    let counts1 = compute_neighbor_counts(&one);
    assert_eq!(counts1[0][0], 0);
    let next1 = step_generation(&one);
    assert!(!next1.get(0, 0));
}
