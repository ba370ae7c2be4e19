//! The input mapper: one polled key becomes at most one clamped player
//! displacement. A quit key or an unrecognized key never mutates the world,
//! and a dead world ignores input altogether.

use vstd::prelude::*;

use crate::world::World;
use crate::world::dec_clamped;
use crate::world::inc_clamped;

verus! {

/// One decoded key press. The host maps its raw key events (arrow keys and
/// the letters w/a/s/d, plus q for quit) onto these; anything else is
/// `Other` and is ignored.
#[derive(Clone, Copy, Debug, PartialEq, Eq, Structural)]
pub enum Key {
    Up,
    Down,
    Left,
    Right,
    Quit,
    Other,
}

/// What one key does to the world: a single clamped displacement for a
/// movement key, nothing for `Quit` or `Other`, and nothing at all once the
/// player is dead.
pub open spec fn input_applied(w: World, key: Key) -> World {
    if !w.alive {
        w
    } else {
        match key {
            Key::Up => (World { player_row: dec_clamped(w.player_row), ..w }),
            Key::Down => (World { player_row: inc_clamped(w.player_row, w.maxl), ..w }),
            Key::Left => (World { player_col: dec_clamped(w.player_col), ..w }),
            Key::Right => (World { player_col: inc_clamped(w.player_col, w.maxc), ..w }),
            Key::Quit => w,
            Key::Other => w,
        }
    }
}

/// The same, lifted over an optional key: a tick that polled no event
/// leaves the world as it was.
pub open spec fn input_applied_opt(w: World, key: Option<Key>) -> World {
    match key {
        Some(k) => input_applied(w, k),
        None => w,
    }
}

/// Applies one key to the world: exactly the displacement `input_applied`
/// describes, preserving the world invariant.
pub fn apply_input(w: &mut World, key: Key)
    requires
        old(w).wf(),
    ensures
        final(w).wf(),
        *final(w) == input_applied(*old(w), key),
{
    if !w.alive {
        return ;
    }
    match key {
        Key::Up => w.move_up(),
        Key::Down => {
            let maxl = w.maxl;
            w.move_down(maxl);
        },
        Key::Left => w.move_left(),
        Key::Right => {
            let maxc = w.maxc;
            w.move_right(maxc);
        },
        Key::Quit => {},
        Key::Other => {},
    }
}

/// Movement is clamped at the screen border: a move toward a border the
/// player already touches leaves the position unchanged.
pub proof fn lemma_input_clamped(w: World)
    requires
        w.wf(),
    ensures
        w.player_col == 1 ==> input_applied(w, Key::Left).player_col == w.player_col,
        w.player_col == w.maxc - 1 ==> input_applied(w, Key::Right).player_col == w.player_col,
        w.player_row == 1 ==> input_applied(w, Key::Up).player_row == w.player_row,
        w.player_row == w.maxl - 1 ==> input_applied(w, Key::Down).player_row == w.player_row,
{
}

/// Input never moves a dead player: once `alive` is false, every key is a
/// no-op.
pub proof fn lemma_dead_world_ignores_input(w: World, key: Key)
    requires
        !w.alive,
    ensures
        input_applied(w, key) == w,
{
}

} // verus!
