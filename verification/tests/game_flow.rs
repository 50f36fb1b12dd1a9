//! The state machine under ticks and key events: clamping, the direction
//! lock, growth, saturation, and the worked scenario.

use snake_core::game::{Direction, KeyEvent, LetterMover, RawKey, MAX_SEGMENTS};

fn press(m: &mut LetterMover, k: RawKey) {
    m.key(KeyEvent::Raw(k));
}

/// Drive the snake toward the current food cell until one item is consumed,
/// ticking at most `max_ticks` times. Returns whether it was consumed.
fn steer_and_eat(m: &mut LetterMover, max_ticks: usize) -> bool {
    let start_score = m.score();
    let mut ticks = 0;
    while ticks < max_ticks {
        let (hx, hy) = m.head_position();
        let (fx, fy) = m.food_position();
        let (dx, dy) = m.velocity();
        if hx != fx {
            let want: isize = if fx > hx { 1 } else { -1 };
            if dx == want {
                // already heading there
            } else if dx == 0 {
                press(m, if want == 1 { RawKey::ArrowRight } else { RawKey::ArrowLeft });
            } else {
                // horizontal reversal: unlock the axis by turning vertically
                press(m, if fy >= hy { RawKey::ArrowDown } else { RawKey::ArrowUp });
            }
        } else if hy != fy {
            let want: isize = if fy > hy { 1 } else { -1 };
            if dy == want {
                // already heading there
            } else if dy == 0 {
                press(m, if want == 1 { RawKey::ArrowDown } else { RawKey::ArrowUp });
            } else {
                // vertical reversal: unlock the axis by turning horizontally
                press(m, if fx >= hx { RawKey::ArrowRight } else { RawKey::ArrowLeft });
            }
        }
        m.tick();
        if m.score() > start_score {
            return true;
        }
        ticks += 1;
    }
    false
}

#[test]
fn new_game_starts_centered_at_rest() {
    let m = LetterMover::new(40, 25, 1);
    assert_eq!(m.head_position(), (20, 12));
    assert_eq!(m.food_position(), (30, 22));
    assert_eq!(m.velocity(), (0, 0));
    assert_eq!(m.score(), 0);
    assert_eq!(m.segments_used(), 1);
    assert_eq!(m.grid_size(), (40, 25));
}

#[test]
fn default_game_uses_display_grid() {
    let m = LetterMover::default();
    assert_eq!(m.grid_size(), (80, 25));
    assert_eq!(m.head_position(), (40, 12));
    assert_eq!(m.food_position(), (50, 22));
    assert_eq!(m.velocity(), (0, 0));
    assert_eq!(m.score(), 0);
    assert_eq!(m.segments_used(), 1);
}

#[test]
fn zero_velocity_tick_moves_nothing() {
    let mut m = LetterMover::new(40, 25, 2);
    m.tick();
    m.tick();
    assert_eq!(m.head_position(), (20, 12));
    assert_eq!(m.score(), 0);
    assert_eq!(m.segments_used(), 1);
}

#[test]
fn head_clamps_at_walls() {
    let mut m = LetterMover::new(40, 25, 3);
    press(&mut m, RawKey::ArrowLeft);
    for _ in 0..30 {
        m.tick();
    }
    assert_eq!(m.head_position(), (0, 12));
    press(&mut m, RawKey::ArrowUp);
    for _ in 0..30 {
        m.tick();
    }
    assert_eq!(m.head_position(), (0, 0));
    // pressing further into the corner changes nothing
    m.tick();
    assert_eq!(m.head_position(), (0, 0));
}

#[test]
fn direction_lock_ignores_same_axis() {
    let mut m = LetterMover::new(40, 25, 4);
    press(&mut m, RawKey::ArrowRight);
    assert_eq!(m.velocity(), (1, 0));
    assert_eq!(m.heading(), Direction::Right);
    // horizontal axis is locked: no 180 degree reversal
    press(&mut m, RawKey::ArrowLeft);
    assert_eq!(m.velocity(), (1, 0));
    assert_eq!(m.heading(), Direction::Right);
    // the orthogonal axis is free
    press(&mut m, RawKey::ArrowDown);
    assert_eq!(m.velocity(), (0, 1));
    assert_eq!(m.heading(), Direction::Down);
    // now the vertical axis is locked in turn
    press(&mut m, RawKey::ArrowUp);
    assert_eq!(m.velocity(), (0, 1));
    // and the horizontal axis is free again
    press(&mut m, RawKey::ArrowLeft);
    assert_eq!(m.velocity(), (-1, 0));
    assert_eq!(m.heading(), Direction::Left);
}

#[test]
fn non_arrow_raw_key_is_ignored() {
    let mut m = LetterMover::new(40, 25, 5);
    press(&mut m, RawKey::Other);
    assert_eq!(m.velocity(), (0, 0));
    assert_eq!(m.heading(), Direction::Right);
}

#[test]
fn growth_on_consume_increments_by_one() {
    let mut m = LetterMover::new(40, 25, 6);
    for _ in 0..5 {
        let segments = m.segments_used();
        let score = m.score();
        assert!(steer_and_eat(&mut m, 2000));
        assert_eq!(m.score(), score + 1);
        assert_eq!(m.segments_used(), segments + 1);
        let (fx, fy) = m.food_position();
        assert!(fx < 40 && fy < 25);
    }
}

#[test]
fn saturation_keeps_scoring_without_growth() {
    let mut m = LetterMover::new(40, 25, 7);
    while m.segments_used() < MAX_SEGMENTS {
        let segments = m.segments_used();
        assert!(steer_and_eat(&mut m, 2000));
        assert_eq!(m.segments_used(), segments + 1);
    }
    assert_eq!(m.segments_used(), MAX_SEGMENTS);
    assert_eq!(m.score(), (MAX_SEGMENTS as u64) - 1);
    for _ in 0..3 {
        let score = m.score();
        assert!(steer_and_eat(&mut m, 2000));
        assert_eq!(m.score(), score + 1);
        assert_eq!(m.segments_used(), MAX_SEGMENTS);
    }
}

#[test]
fn example_scenario_runs_as_specified() {
    let mut m = LetterMover::new(40, 25, 8);
    assert_eq!(m.head_position(), (20, 12));
    assert_eq!(m.velocity(), (0, 0));
    assert_eq!(m.food_position(), (30, 22));
    press(&mut m, RawKey::ArrowRight);
    assert_eq!(m.velocity(), (1, 0));
    for _ in 0..10 {
        m.tick();
    }
    assert_eq!(m.head_position(), (30, 12));
    assert_eq!(m.segments_used(), 1);
    assert_eq!(m.score(), 0);
    press(&mut m, RawKey::ArrowDown);
    assert_eq!(m.velocity(), (0, 1));
    for _ in 0..10 {
        m.tick();
    }
    assert_eq!(m.head_position(), (30, 22));
    assert_eq!(m.segments_used(), 2);
    assert_eq!(m.score(), 1);
    // the new body slot sits where the food was consumed
    assert_eq!(m.segment_position(1), (30, 22));
    // the food has been respawned somewhere on the grid
    let (fx, fy) = m.food_position();
    assert!(fx < 40 && fy < 25);
}
