//! The render adapter: colors, the draw-call value handed to the host
//! display, and the predicate for glyphs the display can show.

use vstd::prelude::*;

verus! {

use crate::game::{GameView, SCORE_COL, SCORE_ROW};

/// The display colors the game draws with.
#[derive(Clone, Copy, PartialEq, Eq, Structural, Debug)]
pub enum Color {
    Black,
    Green,
    Red,
    White,
}

/// One call against the host display: either one character cell, or a
/// decimal number starting at a cell.
#[derive(Clone, Copy, PartialEq, Eq, Structural, Debug)]
pub enum DrawCmd {
    Cell { glyph: char, x: usize, y: usize, fg: Color, bg: Color },
    Number { value: u64, x: usize, y: usize, fg: Color, bg: Color },
}

/// Whether the host display can show a glyph: its code point's low byte must
/// lie in the printable range of the display's single-byte character set
/// (glyphs beyond one byte are judged by that same low byte).
pub open spec fn drawable(c: char) -> bool {
    0x20 <= (c as u32) % 256 <= 0x7e
}

/// Decide whether a glyph is drawable on the host display.
pub fn is_drawable(c: char) -> (r: bool)
    ensures
        r == drawable(c),
{
    let code: u32 = c as u32;
    let low: u32 = code % 256;
    0x20 <= low && low <= 0x7e
}

/// The draw call that paints one cell back to the background.
pub open spec fn background_cell(x: usize, y: usize) -> DrawCmd {
    DrawCmd::Cell { glyph: ' ', x: x, y: y, fg: Color::Black, bg: Color::Black }
}

/// The draw call for the body slot at index `i`: its position, skinned with
/// the glyph bound at that index (the skins cycle at the grid width).
pub open spec fn body_cell(v: GameView, i: int) -> DrawCmd {
    DrawCmd::Cell {
        glyph: v.letters[i % (v.width as int)],
        x: v.xs[i],
        y: v.ys[i],
        fg: Color::Green,
        bg: Color::Green,
    }
}

/// The draw call that shows the score at its fixed cell.
pub open spec fn score_cmd(v: GameView) -> DrawCmd {
    DrawCmd::Number { value: v.score, x: SCORE_COL, y: SCORE_ROW, fg: Color::White, bg: Color::Black }
}

/// The draw call for the food cell.
pub open spec fn food_cell(v: GameView) -> DrawCmd {
    DrawCmd::Cell { glyph: v.food_glyph, x: v.food_x, y: v.food_y, fg: Color::Red, bg: Color::Red }
}

/// The full rendering of a state: every occupied body slot in order, then
/// the score, then the food cell.
pub open spec fn render_seq(v: GameView) -> Seq<DrawCmd> {
    Seq::new(v.points_used as nat, |i: int| body_cell(v, i)) + seq![score_cmd(v), food_cell(v)]
}

/// Whether a draw call stays inside the grid.
pub open spec fn cmd_on_grid(c: DrawCmd, width: usize, height: usize) -> bool {
    match c {
        DrawCmd::Cell { x, y, .. } => x < width && y < height,
        DrawCmd::Number { x, y, .. } => x < width && y < height,
    }
}

/// The draw calls a tick starts with: the head's old cell is painted over,
/// and on a consuming tick so is the old food cell.
pub open spec fn erase_cmds(pre: GameView) -> Seq<DrawCmd> {
    if pre.eats() {
        seq![background_cell(pre.col, pre.row), background_cell(pre.food_x, pre.food_y)]
    } else {
        seq![background_cell(pre.col, pre.row)]
    }
}

/// All draw calls of one tick: the erasures over the old state, then the
/// full rendering of the new state.
pub open spec fn tick_draws(pre: GameView, post: GameView) -> Seq<DrawCmd> {
    erase_cmds(pre) + render_seq(post)
}

/// Food relocation is never silent: on a consuming tick the old food cell
/// is erased by the second draw call, before anything else is drawn, and
/// the very last draw call paints the relocated food cell.
pub proof fn lemma_food_redraw(pre: GameView, post: GameView, draws: Seq<DrawCmd>)
    requires
        pre.wf(),
        crate::game::tick_rel(pre, post),
        pre.eats(),
        draws == tick_draws(pre, post),
    ensures
        draws.len() >= 4,
        draws[1] == background_cell(pre.food_x, pre.food_y),
        draws.last() == food_cell(post),
{
    assert(draws.last() == food_cell(post));
}

/// Rendering is a pure function of the state: two renderings of the same
/// state issue exactly the same draw calls.
pub proof fn lemma_render_idempotent(s: GameView, first: Seq<DrawCmd>, second: Seq<DrawCmd>)
    requires
        first == render_seq(s),
        second == render_seq(s),
    ensures
        first == second,
{
}

} // verus!
