use corridor::render::render;
use corridor::world::World;

fn small_world() -> World {
    World {
        player_col: 6,
        player_row: 1,
        maxc: 14,
        maxl: 2,
        corridor: vec![(2, 6), (5, 10)],
        alive: true,
        target_left: 2,
        target_right: 6,
    }
}

fn as_lines(grid: &[Vec<char>]) -> Vec<String> {
    grid.iter().map(|line| line.iter().collect()).collect()
}

#[test]
fn render_paints_walls_corridor_and_player() {
    let grid = render(&small_world());
    let lines = as_lines(&grid);
    assert_eq!(lines.len(), 2);
    assert_eq!(lines[0], "++    ++++++++");
    assert_eq!(lines[1], "+++++ P   ++++");
}

#[test]
fn render_is_idempotent() {
    let w = small_world();
    let first = render(&w);
    let second = render(&w);
    assert_eq!(first, second);
}

#[test]
fn player_glyph_overwrites_a_wall_cell() {
    let mut w = small_world();
    // A dead player can stand on a wall; the player glyph still wins.
    w.player_col = 2;
    w.alive = false;
    let lines = as_lines(&render(&w));
    assert_eq!(lines[1], "++P++     ++++");
}

#[test]
fn render_leaves_the_world_untouched() {
    let w = small_world();
    let _ = render(&w);
    assert_eq!(w.player_col, 6);
    assert_eq!(w.player_row, 1);
    assert_eq!(w.corridor, vec![(2, 6), (5, 10)]);
    assert!(w.alive);
}

#[test]
fn render_matches_screen_size() {
    let w = World::new(80, 24);
    let grid = render(&w);
    assert_eq!(grid.len(), 24);
    for line in &grid {
        assert_eq!(line.len(), 80);
    }
}
