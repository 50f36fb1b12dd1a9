//! The snake state machine: the body-segment record, heading and velocity,
//! the food cell, the score, and the tick and key transitions that drive
//! them.

use vstd::prelude::*;

verus! {

use crate::pos::clamp_step;
use crate::render::{
    body_cell, cmd_on_grid, drawable, food_cell, is_drawable, render_seq, score_cmd, tick_draws,
    Color, DrawCmd,
};

/// Capacity of the body-segment storage; growth saturates here.
pub const MAX_SEGMENTS: usize = 100;

/// Grid width of the default display.
pub const BUFFER_WIDTH: usize = 80;

/// Grid height of the default display.
pub const BUFFER_HEIGHT: usize = 25;

/// Column of the cell where the score is drawn.
pub const SCORE_COL: usize = 5;

/// Row of the cell where the score is drawn.
pub const SCORE_ROW: usize = 2;

/// The four headings the snake can take.
#[derive(Clone, Copy, PartialEq, Eq, Structural, Debug)]
pub enum Direction {
    Up,
    Down,
    Left,
    Right,
}

/// A decoded raw key, as the keyboard layer hands it over: one of the four
/// arrows, or anything else.
#[derive(Clone, Copy, PartialEq, Eq, Structural, Debug)]
pub enum RawKey {
    ArrowUp,
    ArrowDown,
    ArrowLeft,
    ArrowRight,
    Other,
}

/// A decoded key event: either a raw logical key or a literal character.
#[derive(Clone, Copy, PartialEq, Eq, Structural, Debug)]
pub enum KeyEvent {
    Raw(RawKey),
    Character(char),
}

/// The food cell: a position on the grid and the glyph shown there.
#[derive(Clone, Copy, PartialEq, Eq, Structural)]
pub struct NewSnakeChar {
    pub x: usize,
    pub y: usize,
    pub character: char,
}

/// The mathematical model of the game state: every field of the state
/// machine except the opaque pseudo-random generator.
pub struct GameView {
    /// Glyph skins bound to body slots, cycled through by index.
    pub letters: Seq<char>,
    /// How many glyph skins have been bound.
    pub num_letters: usize,
    /// Write cursor into `letters`, advancing modulo the grid width.
    pub next_letter: usize,
    /// Column of the head cell currently on the display.
    pub col: usize,
    /// Row of the head cell currently on the display.
    pub row: usize,
    /// Horizontal velocity, a unit step per tick.
    pub dx: isize,
    /// Vertical velocity, a unit step per tick.
    pub dy: isize,
    /// The heading most recently requested by a key.
    pub direction: Direction,
    /// Column of each body slot; index 0 is the head.
    pub xs: Seq<usize>,
    /// Row of each body slot; index 0 is the head.
    pub ys: Seq<usize>,
    /// How many body slots are occupied; slots beyond hold stale data.
    pub points_used: usize,
    /// Column of the food cell.
    pub food_x: usize,
    /// Row of the food cell.
    pub food_y: usize,
    /// Glyph of the food cell.
    pub food_glyph: char,
    /// Food items consumed so far.
    pub score: u64,
    /// Grid width; all columns lie in `[0, width)`.
    pub width: usize,
    /// Grid height; all rows lie in `[0, height)`.
    pub height: usize,
}

impl GameView {
    /// Well-formedness of the game state: the grid is big enough to hold the
    /// score cell and the initial food offset, every stored position lies on
    /// the grid, the snake is never empty, the velocity is a unit step on at
    /// most one axis, and the cursors stay within the glyph storage.
    pub open spec fn wf(self) -> bool {
        &&& 0 < self.width <= u32::MAX
        &&& 0 < self.height <= u32::MAX
        &&& SCORE_COL < self.width
        &&& SCORE_ROW < self.height
        &&& self.letters.len() == self.width
        &&& self.xs.len() == MAX_SEGMENTS
        &&& self.ys.len() == MAX_SEGMENTS
        &&& 1 <= self.points_used <= MAX_SEGMENTS
        &&& (forall|i: int|
            0 <= i < MAX_SEGMENTS ==> self.xs[i] < self.width && self.ys[i] < self.height)
        &&& self.col == self.xs[0]
        &&& self.row == self.ys[0]
        &&& -1 <= self.dx <= 1
        &&& -1 <= self.dy <= 1
        &&& (self.dx == 0 || self.dy == 0)
        &&& self.next_letter < self.width
        &&& 1 <= self.num_letters <= self.width
        &&& self.food_x < self.width
        &&& self.food_y < self.height
        &&& drawable(self.food_glyph)
    }

    /// The head column after the next tick: one clamped unit step.
    pub open spec fn next_head_x(self) -> int {
        clamp_step(self.xs[0] as int, self.dx as int, self.width as int)
    }

    /// The head row after the next tick: one clamped unit step.
    pub open spec fn next_head_y(self) -> int {
        clamp_step(self.ys[0] as int, self.dy as int, self.height as int)
    }

    /// Whether the next tick consumes the food: the computed next head
    /// position equals the food position.
    pub open spec fn eats(self) -> bool {
        self.next_head_x() == self.food_x && self.next_head_y() == self.food_y
    }
}

/// Bind a glyph skin for future body slots: a drawable character lands at
/// the write cursor, which advances and wraps at the grid width, while the
/// skin count grows up to the grid width; anything else is ignored.
pub open spec fn unicode_step(v: GameView, c: char) -> GameView {
    if drawable(c) {
        GameView {
            letters: v.letters.update(v.next_letter as int, c),
            next_letter: if v.next_letter + 1 < v.width {
                (v.next_letter + 1) as usize
            } else {
                0usize
            },
            num_letters: if v.num_letters < v.width {
                (v.num_letters + 1) as usize
            } else {
                v.num_letters
            },
            ..v
        }
    } else {
        v
    }
}

/// Bind the next free body slot to a position: if the glyph is drawable and
/// a slot is free, the slot at `points_used` takes the position; the slot
/// count itself moves separately.
pub open spec fn bind_segment(v: GameView, c: char, x: usize, y: usize) -> GameView {
    if drawable(c) && v.points_used < MAX_SEGMENTS {
        GameView { xs: v.xs.update(v.points_used as int, x), ys: v.ys.update(v.points_used as int, y), ..v }
    } else {
        v
    }
}

/// React to a raw key: an arrow sets a unit velocity on its axis and zeroes
/// the other axis, but only while its own axis is at rest (the direction
/// lock); any other raw key is ignored.
pub open spec fn raw_step(v: GameView, k: RawKey) -> GameView {
    match k {
        RawKey::ArrowLeft => if v.dx == 0 {
            GameView { dx: -1isize, dy: 0isize, direction: Direction::Left, ..v }
        } else {
            v
        },
        RawKey::ArrowRight => if v.dx == 0 {
            GameView { dx: 1isize, dy: 0isize, direction: Direction::Right, ..v }
        } else {
            v
        },
        RawKey::ArrowUp => if v.dy == 0 {
            GameView { dy: -1isize, dx: 0isize, direction: Direction::Up, ..v }
        } else {
            v
        },
        RawKey::ArrowDown => if v.dy == 0 {
            GameView { dy: 1isize, dx: 0isize, direction: Direction::Down, ..v }
        } else {
            v
        },
        RawKey::Other => v,
    }
}

/// React to one decoded key event: raw keys steer, characters bind skins.
pub open spec fn key_step(v: GameView, ev: KeyEvent) -> GameView {
    match ev {
        KeyEvent::Raw(k) => raw_step(v, k),
        KeyEvent::Character(c) => unicode_step(v, c),
    }
}

/// How one tick relates the state before to the state after. Everything is
/// pinned down except the new food position on a consuming tick, which the
/// pseudo-random generator chooses: of it only the grid bounds are stated.
pub open spec fn tick_rel(pre: GameView, post: GameView) -> bool {
    let nx = pre.next_head_x();
    let ny = pre.next_head_y();
    &&& post.width == pre.width
    &&& post.height == pre.height
    &&& post.dx == pre.dx
    &&& post.dy == pre.dy
    &&& post.direction == pre.direction
    &&& post.col == nx
    &&& post.row == ny
    &&& if pre.eats() {
        let bound = unicode_step(pre, pre.food_glyph);
        &&& post.score == pre.score + 1
        &&& post.points_used == if pre.points_used < MAX_SEGMENTS {
            (pre.points_used + 1) as usize
        } else {
            pre.points_used
        }
        &&& post.xs == bind_segment(pre, pre.food_glyph, nx as usize, ny as usize).xs.update(
            0,
            nx as usize,
        )
        &&& post.ys == bind_segment(pre, pre.food_glyph, nx as usize, ny as usize).ys.update(
            0,
            ny as usize,
        )
        &&& post.letters == bound.letters
        &&& post.next_letter == bound.next_letter
        &&& post.num_letters == bound.num_letters
        &&& post.food_x < pre.width
        &&& post.food_y < pre.height
        &&& post.food_glyph == 'o'
    } else {
        &&& post.score == pre.score
        &&& post.points_used == pre.points_used
        &&& post.xs == pre.xs.update(0, nx as usize)
        &&& post.ys == pre.ys.update(0, ny as usize)
        &&& post.letters == pre.letters
        &&& post.next_letter == pre.next_letter
        &&& post.num_letters == pre.num_letters
        &&& post.food_x == pre.food_x
        &&& post.food_y == pre.food_y
        &&& post.food_glyph == pre.food_glyph
    }
}

/// Boundary clamp: after a tick the head stays on the grid, and a step that
/// would cross a wall leaves that axis's coordinate unchanged.
pub proof fn lemma_boundary_clamp(pre: GameView, post: GameView)
    requires
        pre.wf(),
        tick_rel(pre, post),
    ensures
        post.xs[0] < pre.width,
        post.ys[0] < pre.height,
        !(0 <= pre.xs[0] + pre.dx < pre.width) ==> post.xs[0] == pre.xs[0],
        !(0 <= pre.ys[0] + pre.dy < pre.height) ==> post.ys[0] == pre.ys[0],
{
}

/// Single-axis lock, horizontal: while the horizontal velocity is non-zero,
/// horizontal arrows are ignored; a vertical arrow zeroes the horizontal
/// axis and sets a unit vertical velocity.
pub proof fn lemma_single_axis_lock_horizontal(s: GameView)
    requires
        s.wf(),
        s.dx != 0,
    ensures
        key_step(s, KeyEvent::Raw(RawKey::ArrowLeft)) == s,
        key_step(s, KeyEvent::Raw(RawKey::ArrowRight)) == s,
        key_step(s, KeyEvent::Raw(RawKey::ArrowUp)).dy == -1,
        key_step(s, KeyEvent::Raw(RawKey::ArrowUp)).dx == 0,
        key_step(s, KeyEvent::Raw(RawKey::ArrowDown)).dy == 1,
        key_step(s, KeyEvent::Raw(RawKey::ArrowDown)).dx == 0,
{
}

/// Single-axis lock, vertical: while the vertical velocity is non-zero,
/// vertical arrows are ignored; a horizontal arrow zeroes the vertical axis
/// and sets a unit horizontal velocity.
pub proof fn lemma_single_axis_lock_vertical(s: GameView)
    requires
        s.wf(),
        s.dy != 0,
    ensures
        key_step(s, KeyEvent::Raw(RawKey::ArrowUp)) == s,
        key_step(s, KeyEvent::Raw(RawKey::ArrowDown)) == s,
        key_step(s, KeyEvent::Raw(RawKey::ArrowLeft)).dx == -1,
        key_step(s, KeyEvent::Raw(RawKey::ArrowLeft)).dy == 0,
        key_step(s, KeyEvent::Raw(RawKey::ArrowRight)).dx == 1,
        key_step(s, KeyEvent::Raw(RawKey::ArrowRight)).dy == 0,
{
}

/// Growth on consume: a tick whose computed next head position equals the
/// food position grows the body by exactly one slot (when below capacity)
/// and raises the score by exactly one.
pub proof fn lemma_growth_on_consume(pre: GameView, post: GameView)
    requires
        pre.wf(),
        tick_rel(pre, post),
        pre.eats(),
        pre.points_used < MAX_SEGMENTS,
    ensures
        post.points_used == pre.points_used + 1,
        post.score == pre.score + 1,
{
}

/// Saturation: once the body has reached its capacity, a consuming tick
/// still raises the score by one but adds no body slot.
pub proof fn lemma_saturation(pre: GameView, post: GameView)
    requires
        pre.wf(),
        tick_rel(pre, post),
        pre.eats(),
        pre.points_used == MAX_SEGMENTS,
    ensures
        post.points_used == MAX_SEGMENTS,
        post.score == pre.score + 1,
{
}

/// The state a fresh game starts in on a `width` by `height` grid: a single
/// body segment at the centre, zero velocity, the food offset from the
/// centre, all glyph skins set to the food glyph, and a zero score.
pub open spec fn initial_view(width: usize, height: usize) -> GameView {
    GameView {
        letters: Seq::new(width as nat, |i: int| 'o'),
        num_letters: 1,
        next_letter: 1,
        col: ((width as int / 2) as usize),
        row: ((height as int / 2) as usize),
        dx: 0isize,
        dy: 0isize,
        direction: Direction::Right,
        xs: Seq::new(MAX_SEGMENTS as nat, |i: int| (width as int / 2) as usize),
        ys: Seq::new(MAX_SEGMENTS as nat, |i: int| (height as int / 2) as usize),
        points_used: 1,
        food_x: ((width as int / 2 + 10) as usize),
        food_y: ((height as int / 2 + 10) as usize),
        food_glyph: 'o',
        score: 0,
        width: width,
        height: height,
    }
}

/// The snake game's state: the model fields of `GameView` plus the opaque
/// pseudo-random generator that places food.
pub struct LetterMover {
    letters: Vec<char>,
    num_letters: usize,
    next_letter: usize,
    col: usize,
    row: usize,
    dx: isize,
    dy: isize,
    direction: Direction,
    x_points: Vec<usize>,
    y_points: Vec<usize>,
    points_used: usize,
    new_snake: NewSnakeChar,
    score: u64,
    width: usize,
    height: usize,
    rng: oorandom::Rand32,
}

impl View for LetterMover {
    type V = GameView;

    closed spec fn view(&self) -> GameView {
        GameView {
            letters: self.letters@,
            num_letters: self.num_letters,
            next_letter: self.next_letter,
            col: self.col,
            row: self.row,
            dx: self.dx,
            dy: self.dy,
            direction: self.direction,
            xs: self.x_points@,
            ys: self.y_points@,
            points_used: self.points_used,
            food_x: self.new_snake.x,
            food_y: self.new_snake.y,
            food_glyph: self.new_snake.character,
            score: self.score,
            width: self.width,
            height: self.height,
        }
    }
}

impl LetterMover {
    /// Well-formedness of the state machine, stated over its model.
    pub open spec fn wf(&self) -> bool {
        self@.wf()
    }

    /// Start a fresh game on a `width` by `height` grid, with `seed` feeding
    /// the generator that will place food. The grid must be large enough to
    /// hold the score cell and the initial food offset from the centre.
    pub fn new(width: usize, height: usize, seed: u64) -> (s: Self)
        requires
            width / 2 + 10 < width,
            height / 2 + 10 < height,
            width <= u32::MAX,
            height <= u32::MAX,
        ensures
            s@ == initial_view(width, height),
            s.wf(),
    {
        let mut letters: Vec<char> = Vec::new();
        let mut i: usize = 0;
        while i < width
            invariant
                i <= width,
                letters@ =~= Seq::new(i as nat, |j: int| 'o'),
            decreases width - i,
        {
            letters.push('o');
            i += 1;
        }
        let half_w = width / 2;
        let half_h = height / 2;
        let mut x_points: Vec<usize> = Vec::new();
        let mut y_points: Vec<usize> = Vec::new();
        let mut k: usize = 0;
        while k < MAX_SEGMENTS
            invariant
                k <= MAX_SEGMENTS,
                half_w == width as int / 2,
                half_h == height as int / 2,
                x_points@ =~= Seq::new(k as nat, |j: int| (width as int / 2) as usize),
                y_points@ =~= Seq::new(k as nat, |j: int| (height as int / 2) as usize),
            decreases MAX_SEGMENTS - k,
        {
            x_points.push(half_w);
            y_points.push(half_h);
            k += 1;
        }
        let s = LetterMover {
            letters,
            num_letters: 1,
            next_letter: 1,
            col: half_w,
            row: half_h,
            dx: 0,
            dy: 0,
            direction: Direction::Right,
            x_points,
            y_points,
            points_used: 1,
            new_snake: NewSnakeChar { x: half_w + 10, y: half_h + 10, character: 'o' },
            score: 0,
            width,
            height,
            rng: crate::rng::rng_new(seed),
        };
        proof {
            assert(drawable('o'));
            assert(s@.letters =~= initial_view(width, height).letters);
            assert(s@.xs =~= initial_view(width, height).xs);
            assert(s@.ys =~= initial_view(width, height).ys);
            assert(s@ == initial_view(width, height));
        }
        s
    }

    /// Where the head currently stands on the grid.
    pub fn head_position(&self) -> (p: (usize, usize))
        ensures
            p.0 == self@.col,
            p.1 == self@.row,
    {
        (self.col, self.row)
    }

    /// Where the food currently lies on the grid.
    pub fn food_position(&self) -> (p: (usize, usize))
        ensures
            p.0 == self@.food_x,
            p.1 == self@.food_y,
    {
        (self.new_snake.x, self.new_snake.y)
    }

    /// How many food items have been consumed.
    pub fn score(&self) -> (r: u64)
        ensures
            r == self@.score,
    {
        self.score
    }

    /// How many body slots are occupied.
    pub fn segments_used(&self) -> (r: usize)
        ensures
            r == self@.points_used,
    {
        self.points_used
    }

    /// The position of the body slot at `i`; index 0 is the head.
    pub fn segment_position(&self, i: usize) -> (p: (usize, usize))
        requires
            self.wf(),
            i < self@.points_used,
        ensures
            p.0 == self@.xs[i as int],
            p.1 == self@.ys[i as int],
    {
        (self.x_points[i], self.y_points[i])
    }

    /// The current per-axis unit velocity.
    pub fn velocity(&self) -> (v: (isize, isize))
        ensures
            v.0 == self@.dx,
            v.1 == self@.dy,
    {
        (self.dx, self.dy)
    }

    /// The heading most recently requested by a key.
    pub fn heading(&self) -> (d: Direction)
        ensures
            d == self@.direction,
    {
        self.direction
    }

    /// The grid's width and height.
    pub fn grid_size(&self) -> (g: (usize, usize))
        ensures
            g.0 == self@.width,
            g.1 == self@.height,
    {
        (self.width, self.height)
    }

    /// Bind a drawable character as a glyph skin at the write cursor.
    fn handle_unicode(&mut self, key: char)
        requires
            old(self).wf(),
        ensures
            final(self)@ == unicode_step(old(self)@, key),
            final(self).wf(),
    {
        if is_drawable(key) {
            self.letters.set(self.next_letter, key);
            self.next_letter = if self.next_letter + 1 < self.width {
                self.next_letter + 1
            } else {
                0
            };
            self.num_letters = if self.num_letters < self.width {
                self.num_letters + 1
            } else {
                self.num_letters
            };
        }
    }

    /// Bind the next free body slot to a position on the grid.
    fn handle_add(&mut self, key: char, x: usize, y: usize)
        requires
            old(self).wf(),
            x < old(self)@.width,
            y < old(self)@.height,
        ensures
            final(self)@ == bind_segment(old(self)@, key, x, y),
            final(self).wf(),
    {
        if is_drawable(key) && self.points_used < MAX_SEGMENTS {
            self.x_points.set(self.points_used, x);
            self.y_points.set(self.points_used, y);
        }
    }

    /// Steer on a raw key, honouring the direction lock.
    fn handle_raw(&mut self, key: RawKey)
        requires
            old(self).wf(),
        ensures
            final(self)@ == raw_step(old(self)@, key),
            final(self).wf(),
    {
        match key {
            RawKey::ArrowLeft => {
                if self.dx == 0 {
                    self.dx = -1;
                    self.dy = 0;
                    self.direction = Direction::Left;
                }
            },
            RawKey::ArrowRight => {
                if self.dx == 0 {
                    self.dx = 1;
                    self.dy = 0;
                    self.direction = Direction::Right;
                }
            },
            RawKey::ArrowUp => {
                if self.dy == 0 {
                    self.dy = -1;
                    self.dx = 0;
                    self.direction = Direction::Up;
                }
            },
            RawKey::ArrowDown => {
                if self.dy == 0 {
                    self.dy = 1;
                    self.dx = 0;
                    self.direction = Direction::Down;
                }
            },
            RawKey::Other => {},
        }
    }

    /// Consume one decoded key event.
    pub fn key(&mut self, key: KeyEvent)
        requires
            old(self).wf(),
        ensures
            final(self)@ == key_step(old(self)@, key),
            final(self).wf(),
    {
        match key {
            KeyEvent::Raw(code) => self.handle_raw(code),
            KeyEvent::Character(c) => self.handle_unicode(c),
        }
    }

    /// Place the food at a position the pseudo-random generator picks;
    /// everything else stays as it was. Which cell it lands on is not
    /// specified, only that it lies on the grid.
    fn new_food(&mut self)
        requires
            old(self).wf(),
        ensures
            final(self)@ == (GameView {
                food_x: final(self)@.food_x,
                food_y: final(self)@.food_y,
                food_glyph: 'o',
                ..old(self)@
            }),
            final(self)@.food_x < old(self)@.width,
            final(self)@.food_y < old(self)@.height,
            final(self).wf(),
    {
        let new_x = crate::rng::rng_below(&mut self.rng, self.width as u32) as usize;
        let new_y = crate::rng::rng_below(&mut self.rng, self.height as u32) as usize;
        self.new_snake = NewSnakeChar { x: new_x, y: new_y, character: 'o' };
        proof {
            assert(drawable('o'));
        }
    }

    /// Move the head one clamped unit step and record its cell as the one
    /// now on the display.
    fn update_location(&mut self)
        requires
            old(self).wf(),
        ensures
            final(self)@ == (GameView {
                col: (old(self)@.next_head_x() as usize),
                row: (old(self)@.next_head_y() as usize),
                xs: old(self)@.xs.update(0, old(self)@.next_head_x() as usize),
                ys: old(self)@.ys.update(0, old(self)@.next_head_y() as usize),
                ..old(self)@
            }),
            final(self).wf(),
    {
        let nx = crate::pos::clamp_step_usize(self.x_points[0], self.dx, self.width);
        let ny = crate::pos::clamp_step_usize(self.y_points[0], self.dy, self.height);
        self.x_points.set(0, nx);
        self.y_points.set(0, ny);
        self.col = nx;
        self.row = ny;
    }

    /// Turn the current state into draw calls: every occupied body
    /// slot, then the score, then the food cell. No call draws outside the
    /// grid.
    pub fn render(&self) -> (cmds: Vec<DrawCmd>)
        requires
            self.wf(),
        ensures
            cmds@ == render_seq(self@),
            forall|i: int|
                0 <= i < cmds@.len() ==> cmd_on_grid(#[trigger] cmds@[i], self@.width, self@.height),
    {
        let mut cmds: Vec<DrawCmd> = Vec::new();
        let mut i: usize = 0;
        while i < self.points_used
            invariant
                self.wf(),
                i <= self.points_used,
                cmds@ =~= Seq::new(i as nat, |j: int| body_cell(self@, j)),
            decreases self.points_used - i,
        {
            let cell = DrawCmd::Cell {
                glyph: self.letters[i % self.width],
                x: self.x_points[i],
                y: self.y_points[i],
                fg: Color::Green,
                bg: Color::Green,
            };
            proof {
                assert(cell == body_cell(self@, i as int));
            }
            cmds.push(cell);
            i += 1;
            proof {
                assert(cmds@ =~= Seq::new(i as nat, |j: int| body_cell(self@, j)));
            }
        }
        cmds.push(
            DrawCmd::Number {
                value: self.score,
                x: SCORE_COL,
                y: SCORE_ROW,
                fg: Color::White,
                bg: Color::Black,
            },
        );
        cmds.push(
            DrawCmd::Cell {
                glyph: self.new_snake.character,
                x: self.new_snake.x,
                y: self.new_snake.y,
                fg: Color::Red,
                bg: Color::Red,
            },
        );
        proof {
            assert(cmds@ =~= render_seq(self@));
            assert forall|i: int| 0 <= i < cmds@.len() implies cmd_on_grid(
                cmds@[i],
                self@.width,
                self@.height,
            ) by {
                if i < self@.points_used {
                    assert(cmds@[i] == body_cell(self@, i));
                    assert(self@.xs[i] < self@.width);
                } else if i == self@.points_used {
                    assert(cmds@[i] == score_cmd(self@));
                } else {
                    assert(cmds@[i] == food_cell(self@));
                }
            }
        }
        cmds
    }

    /// One timer tick: erase the head's old cell, move the head one clamped
    /// step, and when the new head position equals the food position,
    /// consume it — bind its glyph, fill the next free body slot, respawn
    /// the food and raise the score. Returns the draw calls that bring the
    /// display to the new state.
    pub fn tick(&mut self) -> (draws: Vec<DrawCmd>)
        requires
            old(self).wf(),
            old(self)@.score < u64::MAX,
        ensures
            final(self).wf(),
            tick_rel(old(self)@, final(self)@),
            draws@ == tick_draws(old(self)@, final(self)@),
    {
        let mut draws: Vec<DrawCmd> = Vec::new();
        draws.push(
            DrawCmd::Cell { glyph: ' ', x: self.col, y: self.row, fg: Color::Black, bg: Color::Black },
        );
        let nx = crate::pos::clamp_step_usize(self.x_points[0], self.dx, self.width);
        let ny = crate::pos::clamp_step_usize(self.y_points[0], self.dy, self.height);
        if nx == self.new_snake.x && ny == self.new_snake.y {
            draws.push(
                DrawCmd::Cell {
                    glyph: ' ',
                    x: self.new_snake.x,
                    y: self.new_snake.y,
                    fg: Color::Black,
                    bg: Color::Black,
                },
            );
            let glyph = self.new_snake.character;
            self.handle_unicode(glyph);
            self.handle_add(glyph, nx, ny);
            self.new_food();
            self.score = self.score + 1;
            if self.points_used < MAX_SEGMENTS {
                self.points_used = self.points_used + 1;
            }
        }
        self.update_location();
        let mut rest = self.render();
        draws.append(&mut rest);
        proof {
            assert(draws@ =~= tick_draws(old(self)@, self@));
        }
        draws
    }
}

impl Default for LetterMover {
    /// A fresh game on the default display grid. The generator seed is
    /// fixed; a host that wants varying food placement passes its own seed
    /// to `new`.
    fn default() -> (s: Self)
        ensures
            s@ == initial_view(BUFFER_WIDTH, BUFFER_HEIGHT),
            s.wf(),
    {
        LetterMover::new(BUFFER_WIDTH, BUFFER_HEIGHT, 0)
    }
}

} // verus!
