//! The physics step: once per tick, collision against the layout the
//! player actually stood on, a one-row downward scroll, a drifted fresh top
//! row, and an occasional re-roll of the drift targets. A dead world is
//! left untouched. `tick` composes input, physics and the loop's
//! state-machine decision.

use vstd::prelude::*;
use vstd::pervasive::VecAdditionalExecFns;

use crate::input::Key;
use crate::input::apply_input;
use crate::input::input_applied_opt;
use crate::terrain::drift_row;
use crate::terrain::drift_step;
use crate::terrain::pick_left_target;
use crate::terrain::pick_right_target;
use crate::terrain::rand_in_range;
use crate::terrain::step_toward;
use crate::world::MIN_WIDTH;
use crate::world::World;
use crate::world::row_ok;
use crate::world::targets_ok;

verus! {

/// The game-loop state machine: the loop keeps running until the player
/// dies or asks to quit.
#[derive(Clone, Copy, Debug, PartialEq, Eq, Structural)]
pub enum Status {
    Running,
    Dead,
    Quit,
}

/// The death rule, boundary inclusive on both walls: the player dies
/// exactly when the column is on or beyond a wall of the row the player
/// occupies, `player_col <= left_wall || player_col >= right_wall`.
pub open spec fn hits_wall(w: World) -> bool {
    ||| w.player_col <= w.corridor@[w.player_row as int].0
    ||| w.player_col >= w.corridor@[w.player_row as int].1
}

/// Everything one physics step guarantees, for every random outcome.
///
/// On a dead world the step is a no-op. On a live world: the player and
/// the screen bounds are untouched; `alive` afterwards is decided by
/// `hits_wall` on the pre-step layout; every row below the top takes the
/// previous row's pair unchanged; the top row is the old top row drifted
/// one step toward the targets; and the targets stay well formed, move by
/// at most five columns, and are re-rolled only once the top row has caught
/// up with them (the right target may additionally be pushed outward by the
/// minimum-width repair).
pub open spec fn advance_rel(pre: World, post: World) -> bool {
    if !pre.alive {
        post == pre
    } else {
        &&& post.maxc == pre.maxc
        &&& post.maxl == pre.maxl
        &&& post.player_col == pre.player_col
        &&& post.player_row == pre.player_row
        &&& post.alive == !hits_wall(pre)
        &&& post.corridor@.len() == pre.corridor@.len()
        &&& forall|i: int|
            1 <= i < post.corridor@.len() ==> #[trigger] post.corridor@[i] == pre.corridor@[i - 1]
        &&& post.corridor@.len() > 0 ==> post.corridor@[0] == drift_row(
            pre.corridor@[0],
            pre.target_left,
            pre.target_right,
        )
        &&& targets_ok(post.target_left, post.target_right, post.maxc)
        &&& pre.target_left - 5 <= post.target_left <= pre.target_left + 5
        &&& pre.target_right - 5 <= post.target_right <= pre.target_right + 5
        &&& drift_step(pre.corridor@[0].0, pre.target_left) != pre.target_left
            ==> post.target_left == pre.target_left
        &&& drift_step(pre.corridor@[0].1, pre.target_right) != pre.target_right ==> (
        post.target_right == pre.target_right || post.target_right == post.target_left + MIN_WIDTH)
    }
}

/// One physics step: collision check against the pre-scroll layout, then
/// the scroll, then top-row drift and target maintenance. Preserves the
/// world invariant and satisfies `advance_rel` whatever the random draws.
pub fn advance(w: &mut World)
    requires
        old(w).wf(),
    ensures
        final(w).wf(),
        advance_rel(*old(w), *final(w)),
{
    if !w.alive {
        return ;
    }
    let ghost pre: World = *old(w);

    // Collision first, against the layout the player interacted with.
    let row = w.corridor[w.player_row as usize];
    if w.player_col <= row.0 || w.player_col >= row.1 {
        w.alive = false;
    }

    // Scroll: each row takes the previous row's pair, bottom row first so
    // no pair is overwritten before it has been copied.
    let mut i: usize = w.corridor.len() - 1;
    while i > 0
        invariant
            pre.wf(),
            i < pre.corridor@.len(),
            w.corridor@.len() == pre.corridor@.len(),
            w.maxc == pre.maxc,
            w.maxl == pre.maxl,
            w.player_col == pre.player_col,
            w.player_row == pre.player_row,
            w.alive == !hits_wall(pre),
            w.target_left == pre.target_left,
            w.target_right == pre.target_right,
            forall|j: int|
                i < j < w.corridor@.len() ==> #[trigger] w.corridor@[j] == pre.corridor@[j - 1],
            forall|j: int| 0 <= j <= i ==> #[trigger] w.corridor@[j] == pre.corridor@[j],
        decreases i,
    {
        let prev = w.corridor[i - 1];
        w.corridor.set(i, prev);
        i = i - 1;
    }

    // The fresh top row: the old top row drifted one step toward each
    // target.
    let row0 = w.corridor[0];
    let fresh_left = step_toward(row0.0, w.target_left);
    let fresh_right = step_toward(row0.1, w.target_right);
    w.corridor.set(0, (fresh_left, fresh_right));
    proof {
        crate::terrain::lemma_drift_row_ok(
            pre.corridor@[0],
            pre.target_left,
            pre.target_right,
            pre.maxc,
        );
    }

    // Once a wall has caught up with its target, occasionally (3 in 10)
    // wander the target to a fresh spot nearby.
    if fresh_left == w.target_left {
        let roll = rand_in_range(0, 10);
        if roll >= 7 {
            let maxc = w.maxc;
            let picked = pick_left_target(w.target_left, maxc);
            w.target_left = picked;
        }
    }
    if fresh_right == w.target_right {
        let roll = rand_in_range(0, 10);
        if roll >= 7 {
            let maxc = w.maxc;
            let picked = pick_right_target(w.target_right, maxc);
            w.target_right = picked;
        }
    }
    // Deterministic repair: if the fresh targets would squeeze the corridor
    // below the minimum width, push the right target outward.
    if w.target_right < w.target_left + MIN_WIDTH {
        w.target_right = w.target_left + MIN_WIDTH;
    }
}

/// One whole game-loop tick. The quit key wins immediately and leaves the
/// world untouched; otherwise the polled key (if any) is applied, physics
/// runs, and the returned status says whether the loop goes on.
pub fn tick(w: &mut World, key: Option<Key>) -> (s: Status)
    requires
        old(w).wf(),
    ensures
        final(w).wf(),
        key == Some(Key::Quit) ==> *final(w) == *old(w) && s == Status::Quit,
        key != Some(Key::Quit) ==> advance_rel(input_applied_opt(*old(w), key), *final(w)),
        key != Some(Key::Quit) ==> (s == Status::Running <==> final(w).alive),
        key != Some(Key::Quit) ==> (s == Status::Dead <==> !final(w).alive),
{
    match key {
        Some(Key::Quit) => Status::Quit,
        Some(k) => {
            apply_input(w, k);
            advance(w);
            if w.alive {
                Status::Running
            } else {
                Status::Dead
            }
        },
        None => {
            advance(w);
            if w.alive {
                Status::Running
            } else {
                Status::Dead
            }
        },
    }
}

/// Scroll continuity: in one live physics step, every row below the top
/// takes the previous row's pair unchanged, and each wall of the fresh top
/// row moves by at most one column from the old top row.
pub proof fn lemma_scroll_continuity(pre: World, post: World)
    requires
        pre.alive,
        advance_rel(pre, post),
        pre.corridor@.len() > 0,
    ensures
        forall|i: int|
            1 <= i < post.corridor@.len() ==> #[trigger] post.corridor@[i] == pre.corridor@[i - 1],
        pre.corridor@[0].0 - 1 <= post.corridor@[0].0 <= pre.corridor@[0].0 + 1,
        pre.corridor@[0].1 - 1 <= post.corridor@[0].1 <= pre.corridor@[0].1 + 1,
{
}

/// Death is final on the physics side: a step on a dead world changes
/// nothing at all.
pub proof fn lemma_dead_world_ignores_physics(pre: World, post: World)
    requires
        !pre.alive,
        advance_rel(pre, post),
    ensures
        post == pre,
{
}

} // verus!
