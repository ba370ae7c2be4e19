use corridor::input::Key;
use corridor::input::apply_input;
use corridor::world::World;

fn centered_world() -> World {
    World::new(80, 24)
}

#[test]
fn new_world_is_centered() {
    let w = centered_world();
    assert!(w.alive);
    assert_eq!(w.player_col, 40);
    assert_eq!(w.player_row, 23);
    assert_eq!(w.maxc, 80);
    assert_eq!(w.maxl, 24);
    assert_eq!(w.corridor.len(), 24);
    for row in &w.corridor {
        assert_eq!(*row, (35, 45));
    }
    assert_eq!(w.target_left, 33);
    assert_eq!(w.target_right, 47);
}

#[test]
fn moves_step_one_cell() {
    let mut w = centered_world();
    w.move_up();
    assert_eq!((w.player_col, w.player_row), (40, 22));
    w.move_down(24);
    assert_eq!((w.player_col, w.player_row), (40, 23));
    w.move_left();
    assert_eq!((w.player_col, w.player_row), (39, 23));
    w.move_right(80);
    assert_eq!((w.player_col, w.player_row), (40, 23));
}

#[test]
fn left_move_clamped_at_left_edge() {
    let mut w = centered_world();
    w.player_col = 1;
    w.move_left();
    assert_eq!(w.player_col, 1);
}

#[test]
fn right_move_clamped_at_right_edge() {
    let mut w = centered_world();
    w.player_col = 79;
    w.move_right(80);
    assert_eq!(w.player_col, 79);
}

#[test]
fn up_move_clamped_at_top() {
    let mut w = centered_world();
    w.player_row = 1;
    w.move_up();
    assert_eq!(w.player_row, 1);
}

#[test]
fn down_move_clamped_at_bottom() {
    let mut w = centered_world();
    w.player_row = 23;
    w.move_down(24);
    assert_eq!(w.player_row, 23);
}

#[test]
fn apply_input_moves_once() {
    let mut w = centered_world();
    apply_input(&mut w, Key::Left);
    assert_eq!(w.player_col, 39);
    apply_input(&mut w, Key::Right);
    assert_eq!(w.player_col, 40);
    apply_input(&mut w, Key::Up);
    assert_eq!(w.player_row, 22);
    apply_input(&mut w, Key::Down);
    assert_eq!(w.player_row, 23);
}

#[test]
fn apply_input_ignores_other_and_quit() {
    let mut w = centered_world();
    apply_input(&mut w, Key::Other);
    assert_eq!((w.player_col, w.player_row), (40, 23));
    apply_input(&mut w, Key::Quit);
    assert_eq!((w.player_col, w.player_row), (40, 23));
}

#[test]
fn apply_input_on_dead_world_is_a_no_op() {
    let mut w = centered_world();
    w.alive = false;
    apply_input(&mut w, Key::Left);
    apply_input(&mut w, Key::Down);
    assert_eq!((w.player_col, w.player_row), (40, 23));
}
