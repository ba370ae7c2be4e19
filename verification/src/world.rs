//! The mutable world state: player position, corridor rows, drift targets,
//! screen bounds and the alive flag, together with its well-formedness
//! invariant and the clamped player moves.

use vstd::prelude::*;

verus! {

/// The narrowest passable corridor: every row keeps
/// `right_wall - left_wall >= MIN_WIDTH`.
pub const MIN_WIDTH: u16 = 3;

/// The smallest screen the engine accepts. It leaves room for the centered
/// starting corridor and for the drift-target neighborhood near the edges.
pub const MIN_COLS: u16 = 14;

/// The whole game state, mutated in place once per tick.
///
/// A corridor row is a `(left_wall, right_wall)` pair: columns strictly
/// between the two are passable. Row `0` is the top of the screen; row
/// `maxl - 1` is the bottom, where the player starts.
pub struct World {
    /// Player column, always in `1 .. maxc`.
    pub player_col: u16,
    /// Player row, always in `1 .. maxl`.
    pub player_row: u16,
    /// Screen width in columns, fixed for the session.
    pub maxc: u16,
    /// Screen height in rows, fixed for the session.
    pub maxl: u16,
    /// One `(left_wall, right_wall)` pair per screen row.
    pub corridor: Vec<(u16, u16)>,
    /// False exactly once the player has touched a wall.
    pub alive: bool,
    /// The column the top row's left wall is drifting toward.
    pub target_left: u16,
    /// The column the top row's right wall is drifting toward.
    pub target_right: u16,
}

/// A corridor row is well formed when it is at least `MIN_WIDTH` columns
/// wide and lies on the screen.
pub open spec fn row_ok(row: (u16, u16), maxc: u16) -> bool {
    &&& row.0 + MIN_WIDTH <= row.1
    &&& row.1 <= maxc
}

/// Drift targets obey the same bounds as a row: were the top row to reach
/// them exactly, it would still be a well-formed row.
pub open spec fn targets_ok(left: u16, right: u16, maxc: u16) -> bool {
    &&& left + MIN_WIDTH <= right
    &&& right <= maxc
}

impl World {
    /// The world invariant: established by `new`, preserved by input and
    /// physics, and relied on by the renderer.
    pub open spec fn wf(self) -> bool {
        &&& self.maxc >= MIN_COLS
        &&& self.maxl >= 2
        &&& self.corridor@.len() == self.maxl
        &&& 1 <= self.player_col < self.maxc
        &&& 1 <= self.player_row < self.maxl
        &&& forall|i: int|
            0 <= i < self.corridor@.len() ==> row_ok(#[trigger] self.corridor@[i], self.maxc)
        &&& targets_ok(self.target_left, self.target_right, self.maxc)
    }

    /// A fresh session: the player centered on the bottom row, a straight
    /// symmetric corridor of width 10, and drift targets set two columns
    /// outside the initial walls so the corridor opens gently.
    pub fn new(maxc: u16, maxl: u16) -> (w: World)
        requires
            maxc >= MIN_COLS,
            maxl >= 2,
        ensures
            w.wf(),
            w.alive,
            w.maxc == maxc,
            w.maxl == maxl,
            w.player_col == maxc / 2,
            w.player_row == maxl - 1,
            forall|i: int|
                0 <= i < w.corridor@.len() ==> #[trigger] w.corridor@[i] == ((maxc / 2 - 5) as u16,
                (maxc / 2 + 5) as u16),
            w.target_left == maxc / 2 - 7,
            w.target_right == maxc / 2 + 7,
    {
        let mut corridor: Vec<(u16, u16)> = Vec::new();
        let mut i: u16 = 0;
        while i < maxl
            invariant
                maxc >= MIN_COLS,
                i <= maxl,
                corridor@.len() == i,
                forall|j: int|
                    0 <= j < corridor@.len() ==> #[trigger] corridor@[j] == ((maxc / 2 - 5) as u16,
                    (maxc / 2 + 5) as u16),
            decreases maxl - i,
        {
            corridor.push((maxc / 2 - 5, maxc / 2 + 5));
            i = i + 1;
        }
        World {
            player_col: maxc / 2,
            player_row: maxl - 1,
            maxc,
            maxl,
            corridor,
            alive: true,
            target_left: maxc / 2 - 7,
            target_right: maxc / 2 + 7,
        }
    }

    /// One step up, clamped at row 1.
    pub fn move_up(&mut self)
        ensures
            final(self).player_row == dec_clamped(old(self).player_row),
            final(self).player_col == old(self).player_col,
            final(self).maxc == old(self).maxc,
            final(self).maxl == old(self).maxl,
            final(self).corridor == old(self).corridor,
            final(self).alive == old(self).alive,
            final(self).target_left == old(self).target_left,
            final(self).target_right == old(self).target_right,
    {
        if self.player_row > 1 {
            self.player_row = self.player_row - 1;
        }
    }

    /// One step down, clamped at row `maxl - 1`.
    pub fn move_down(&mut self, maxl: u16)
        ensures
            final(self).player_row == inc_clamped(old(self).player_row, maxl),
            final(self).player_col == old(self).player_col,
            final(self).maxc == old(self).maxc,
            final(self).maxl == old(self).maxl,
            final(self).corridor == old(self).corridor,
            final(self).alive == old(self).alive,
            final(self).target_left == old(self).target_left,
            final(self).target_right == old(self).target_right,
    {
        if maxl >= 1 && self.player_row < maxl - 1 {
            self.player_row = self.player_row + 1;
        }
    }

    /// One step left, clamped at column 1.
    pub fn move_left(&mut self)
        ensures
            final(self).player_col == dec_clamped(old(self).player_col),
            final(self).player_row == old(self).player_row,
            final(self).maxc == old(self).maxc,
            final(self).maxl == old(self).maxl,
            final(self).corridor == old(self).corridor,
            final(self).alive == old(self).alive,
            final(self).target_left == old(self).target_left,
            final(self).target_right == old(self).target_right,
    {
        if self.player_col > 1 {
            self.player_col = self.player_col - 1;
        }
    }

    /// One step right, clamped at column `maxc - 1`.
    pub fn move_right(&mut self, maxc: u16)
        ensures
            final(self).player_col == inc_clamped(old(self).player_col, maxc),
            final(self).player_row == old(self).player_row,
            final(self).maxc == old(self).maxc,
            final(self).maxl == old(self).maxl,
            final(self).corridor == old(self).corridor,
            final(self).alive == old(self).alive,
            final(self).target_left == old(self).target_left,
            final(self).target_right == old(self).target_right,
    {
        if maxc >= 1 && self.player_col < maxc - 1 {
            self.player_col = self.player_col + 1;
        }
    }
}

/// A coordinate decremented by one, held at the floor of 1.
pub open spec fn dec_clamped(v: u16) -> u16 {
    if v > 1 {
        (v - 1) as u16
    } else {
        v
    }
}

/// A coordinate incremented by one, held strictly below `max`.
pub open spec fn inc_clamped(v: u16, max: u16) -> u16 {
    if v + 1 < max {
        (v + 1) as u16
    } else {
        v
    }
}

/// Every row of a well-formed world is passable: at least `MIN_WIDTH`
/// columns lie between its walls.
pub proof fn lemma_corridor_passable(w: World)
    requires
        w.wf(),
    ensures
        forall|i: int|
            0 <= i < w.corridor@.len() ==> #[trigger] w.corridor@[i].1 - w.corridor@[i].0
                >= MIN_WIDTH,
{
    assert forall|i: int| 0 <= i < w.corridor@.len() implies #[trigger] w.corridor@[i].1
        - w.corridor@[i].0 >= MIN_WIDTH by {
        assert(row_ok(w.corridor@[i], w.maxc));
    }
}

} // verus!
