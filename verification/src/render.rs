//! The renderer: a pure read of the world laid out as a `maxl` by `maxc`
//! glyph grid — wall glyphs outside each row's corridor, the player glyph
//! on top, blanks elsewhere. The host paints the grid and flushes it as
//! one batch; nothing here touches the world.

use vstd::prelude::*;

use crate::world::World;

verus! {

/// The glyph painted at a wall cell.
pub const WALL_GLYPH: char = '+';

/// The glyph painted at the player's cell.
pub const PLAYER_GLYPH: char = 'P';

/// The glyph painted inside the corridor.
pub const BLANK_GLYPH: char = ' ';

/// The one glyph a cell shows: the player's cell shows the player glyph
/// (painted last, over whatever else is there), columns from the left edge
/// up to the left wall and from the right wall to the right edge show the
/// wall glyph, and the corridor in between is blank.
pub open spec fn glyph(w: World, row: int, col: int) -> char {
    if row == w.player_row && col == w.player_col {
        PLAYER_GLYPH
    } else if col < w.corridor@[row].0 || col >= w.corridor@[row].1 {
        WALL_GLYPH
    } else {
        BLANK_GLYPH
    }
}

/// The whole frame: one sequence of `maxc` glyphs per screen row.
pub open spec fn render_spec(w: World) -> Seq<Seq<char>> {
    Seq::new(w.maxl as nat, |row: int| Seq::new(w.maxc as nat, |col: int| glyph(w, row, col)))
}

/// Lays the world out as a glyph grid, cell for cell the frame
/// `render_spec` describes. The world is only read, so the grid is a pure
/// function of it.
pub fn render(w: &World) -> (grid: Vec<Vec<char>>)
    requires
        w.wf(),
    ensures
        grid.deep_view() == render_spec(*w),
{
    let mut grid: Vec<Vec<char>> = Vec::new();
    let mut row: u16 = 0;
    while row < w.maxl
        invariant
            w.wf(),
            row <= w.maxl,
            grid@.len() == row,
            forall|i: int|
                0 <= i < grid@.len() ==> #[trigger] grid@[i].deep_view() == render_spec(*w)[i],
        decreases w.maxl - row,
    {
        let walls = w.corridor[row as usize];
        let mut line: Vec<char> = Vec::new();
        let mut col: u16 = 0;
        while col < w.maxc
            invariant
                w.wf(),
                row < w.maxl,
                col <= w.maxc,
                walls == w.corridor@[row as int],
                line@.len() == col,
                forall|j: int| 0 <= j < line@.len() ==> #[trigger] line@[j] == glyph(*w, row as int, j),
            decreases w.maxc - col,
        {
            let cell: char = if row == w.player_row && col == w.player_col {
                PLAYER_GLYPH
            } else if col < walls.0 || col >= walls.1 {
                WALL_GLYPH
            } else {
                BLANK_GLYPH
            };
            line.push(cell);
            col = col + 1;
        }
        proof {
            assert(line.deep_view() =~= render_spec(*w)[row as int]);
        }
        grid.push(line);
        row = row + 1;
    }
    proof {
        assert(grid.deep_view() =~= render_spec(*w));
    }
    grid
}

/// Rendering has no side effect, so it is idempotent: two frames drawn
/// from the same world without an intervening mutation are identical.
pub proof fn lemma_render_idempotent(w: World, first: Seq<Seq<char>>, second: Seq<Seq<char>>)
    requires
        first == render_spec(w),
        second == render_spec(w),
    ensures
        first == second,
{
}

} // verus!
