//! The terrain generator: the fresh top row drifts one column per tick
//! toward the current drift targets, and the targets themselves are
//! occasionally re-rolled inside a bounded neighborhood, clamped to the
//! screen and repaired so the corridor never narrows below `MIN_WIDTH`.

use vstd::prelude::*;

use crate::world::MIN_WIDTH;
use crate::world::row_ok;
use crate::world::targets_ok;

verus! {

/// One drift step: a wall offset moves exactly one column toward its
/// target, or holds once it has reached it.
pub open spec fn drift_step(cur: u16, target: u16) -> u16 {
    if target > cur {
        (cur + 1) as u16
    } else if target < cur {
        (cur - 1) as u16
    } else {
        cur
    }
}

/// The fresh top row: each wall drifts one step toward its own target,
/// independently.
pub open spec fn drift_row(row: (u16, u16), target_left: u16, target_right: u16) -> (u16, u16) {
    (drift_step(row.0, target_left), drift_step(row.1, target_right))
}

/// Drifting preserves row well-formedness: both walls stay on the screen,
/// and the row stays at least `MIN_WIDTH` wide. The width can only shrink
/// by two in one step when both targets point inward, and then the target
/// row itself (at least `MIN_WIDTH` wide) lies strictly inside the current
/// row, so the current width was at least `MIN_WIDTH + 2`.
pub proof fn lemma_drift_row_ok(row: (u16, u16), target_left: u16, target_right: u16, maxc: u16)
    requires
        row_ok(row, maxc),
        targets_ok(target_left, target_right, maxc),
    ensures
        row_ok(drift_row(row, target_left, target_right), maxc),
{
}

/// Executable drift step, pinned to `drift_step`.
pub fn step_toward(cur: u16, target: u16) -> (r: u16)
    ensures
        r == drift_step(cur, target),
{
    if target > cur {
        cur + 1
    } else if target < cur {
        cur - 1
    } else {
        cur
    }
}

/// Relies on rand::Rng::gen_range over rand::thread_rng: a draw from a
/// non-empty half-open range lies in that range.
#[verifier::external_body]
pub(crate) fn rand_in_range(lo: u16, hi: u16) -> (r: u16)
    requires
        lo < hi,
    ensures
        lo <= r < hi,
{
    rand::Rng::gen_range(&mut rand::thread_rng(), lo..hi)
}

/// A fresh left-wall drift target: drawn within five columns of the current
/// target, clamped so it stays on the screen and leaves at least
/// `MIN_WIDTH` columns before the right screen edge.
pub fn pick_left_target(cur: u16, maxc: u16) -> (r: u16)
    requires
        maxc >= MIN_WIDTH + 2,
        cur + MIN_WIDTH <= maxc,
    ensures
        r + MIN_WIDTH <= maxc,
        cur - 5 <= r as int <= cur + 5,
{
    let lo: u16 = if cur >= 5 {
        cur - 5
    } else {
        0
    };
    let cap: u16 = maxc - MIN_WIDTH + 1;
    let hi: u16 = if cap - cur > 5 {
        cur + 5
    } else {
        cap
    };
    rand_in_range(lo, hi)
}

/// A fresh right-wall drift target: drawn within five columns of the
/// current target, clamped so it never leaves the screen.
pub fn pick_right_target(cur: u16, maxc: u16) -> (r: u16)
    requires
        MIN_WIDTH <= cur <= maxc,
    ensures
        r <= maxc,
        cur - 5 <= r as int <= cur + 5,
{
    let lo: u16 = if cur >= 5 {
        cur - 5
    } else {
        0
    };
    let hi: u16 = if maxc - cur > 5 {
        cur + 5
    } else {
        maxc
    };
    rand_in_range(lo, hi)
}

} // verus!
