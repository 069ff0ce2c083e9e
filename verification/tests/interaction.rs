use game_of_life::frame::frame_step;
use game_of_life::grid::axis_tile_count;
use game_of_life::grid::randomize_grid;
use game_of_life::grid::Grid;
use game_of_life::input::apply_paint;
use game_of_life::input::InputEvent;
use game_of_life::input::InputState;
use game_of_life::render::tile_rect;

fn paint_grid_from(rows: usize, cols: usize, live: &[(usize, usize)]) -> Grid {
    let mut g = Grid::new(rows, cols);
    for &(r, c) in live {
        g.set(r, c, true);
    }
    g
}

#[test]
fn toggle_parity() {
    let mut s = InputState::new();
    assert!(!s.running);
    for _ in 0..3 {
        s.handle_event(InputEvent::TogglePress);
    }
    // An odd number of presses from paused ends running.
    assert!(s.running);
    s.handle_event(InputEvent::TogglePress);
    // An even number of presses returns to paused.
    assert!(!s.running);
    for _ in 0..6 {
        s.handle_event(InputEvent::TogglePress);
    }
    assert!(!s.running);
}

#[test]
fn events_update_only_their_flag() {
    let mut s = InputState::new();
    assert!(!s.painting);
    assert_eq!(s.cursor, None);

    s.handle_event(InputEvent::PointerMove(12, 34));
    assert_eq!(s.cursor, Some((12, 34)));
    assert!(!s.running);
    assert!(!s.painting);

    s.handle_event(InputEvent::PaintPress);
    assert!(s.painting);
    assert!(!s.running);
    assert_eq!(s.cursor, Some((12, 34)));

    s.handle_event(InputEvent::PaintRelease);
    assert!(!s.painting);
    assert_eq!(s.cursor, Some((12, 34)));
}

#[test]
fn paint_sets_exactly_the_cell_under_the_cursor() {
    // Tile size 5: the point (7, 12) lies strictly inside column 1
    // (5 < 7 < 10) and row 2 (10 < 12 < 15), and inside no other tile.
    let mut g = paint_grid_from(4, 4, &[(0, 3)]);
    apply_paint(&mut g, 7, 12, 5);
    let expected = paint_grid_from(4, 4, &[(0, 3), (2, 1)]);
    assert_eq!(g, expected);
}

#[test]
fn paint_on_a_tile_edge_hits_nothing() {
    // (10, 10) touches the corners of four tiles but is strictly inside none.
    let mut g = Grid::new(4, 4);
    let before = g.clone();
    apply_paint(&mut g, 10, 10, 5);
    assert_eq!(g, before);
}

#[test]
fn paint_is_additive_only() {
    // Painting over an already live cell keeps it live and erases nothing.
    let mut g = paint_grid_from(4, 4, &[(2, 1), (3, 3)]);
    apply_paint(&mut g, 7, 12, 5);
    let expected = paint_grid_from(4, 4, &[(2, 1), (3, 3)]);
    assert_eq!(g, expected);
}

#[test]
fn frame_step_idle_leaves_grid_unchanged() {
    let g0 = paint_grid_from(4, 4, &[(1, 1), (1, 2), (2, 1)]);
    let mut g = g0.clone();
    let s = InputState::new();
    frame_step(&s, &mut g, 5);
    assert_eq!(g, g0);

    // Painting without a known cursor position also changes nothing.
    let mut s2 = InputState::new();
    s2.handle_event(InputEvent::PaintPress);
    frame_step(&s2, &mut g, 5);
    assert_eq!(g, g0);
}

#[test]
fn frame_step_running_advances_one_generation() {
    let mut g = paint_grid_from(4, 4, &[(0, 0), (0, 1), (1, 0)]);
    let mut s = InputState::new();
    s.handle_event(InputEvent::TogglePress);
    frame_step(&s, &mut g, 5);
    let expected = paint_grid_from(4, 4, &[(0, 0), (0, 1), (1, 0), (1, 1)]);
    assert_eq!(g, expected);
}

#[test]
fn frame_step_advances_then_paints() {
    // The lone cell dies in the advance phase, then the paint phase sets the
    // cell under the cursor on the already advanced grid.
    let mut g = paint_grid_from(4, 4, &[(1, 1)]);
    let mut s = InputState::new();
    s.handle_event(InputEvent::TogglePress);
    s.handle_event(InputEvent::PaintPress);
    s.handle_event(InputEvent::PointerMove(7, 12));
    frame_step(&s, &mut g, 5);
    let expected = paint_grid_from(4, 4, &[(2, 1)]);
    assert_eq!(g, expected);
}

#[test]
fn randomize_extremes_are_deterministic() {
    let dead = randomize_grid(3, 4, 0, 1);
    let live = randomize_grid(3, 4, 1, 1);
    assert_eq!(dead.num_rows(), 3);
    assert_eq!(dead.num_cols(), 4);
    for r in 0..3 {
        for c in 0..4 {
            assert!(!dead.get(r, c));
            assert!(live.get(r, c));
        }
    }
}

#[test]
fn startup_geometry() {
    // A 640 x 480 window with 5-pixel tiles gives a 96 x 128 grid.
    assert_eq!(axis_tile_count(640, 5), 128);
    assert_eq!(axis_tile_count(480, 5), 96);
    // Truncating division: a partial tile at the edge is dropped.
    assert_eq!(axis_tile_count(13, 5), 2);

    // The tile at (row 2, col 3) sits at (15, 10) and is 5 pixels square.
    assert_eq!(tile_rect(2, 3, 5), (15, 10, 5, 5));
    assert_eq!(tile_rect(0, 0, 5), (0, 0, 5, 5));
}
