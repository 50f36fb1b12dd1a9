//! Position arithmetic: wrap-around helpers and the clamped step.

use snake_core::pos::clamp_step_usize;
use snake_core::{add1, safe_add, sub1};

#[test]
fn safe_add_wraps_modulo_limit() {
    assert_eq!(safe_add::<10>(7, 5), 2);
    assert_eq!(safe_add::<10>(3, 4), 7);
    assert_eq!(safe_add::<80>(79, 1), 0);
    assert_eq!(safe_add::<80>(0, 0), 0);
}

#[test]
fn add1_steps_forward_and_wraps() {
    assert_eq!(add1::<10>(8), 9);
    assert_eq!(add1::<10>(9), 0);
    assert_eq!(add1::<80>(0), 1);
}

#[test]
fn sub1_steps_backward_and_wraps() {
    assert_eq!(sub1::<10>(0), 9);
    assert_eq!(sub1::<10>(1), 0);
    assert_eq!(sub1::<80>(79), 78);
}

#[test]
fn clamp_step_moves_within_bounds() {
    assert_eq!(clamp_step_usize(5, 1, 10), 6);
    assert_eq!(clamp_step_usize(5, -1, 10), 4);
    assert_eq!(clamp_step_usize(5, 0, 10), 5);
}

#[test]
fn clamp_step_stops_at_walls() {
    assert_eq!(clamp_step_usize(0, -1, 10), 0);
    assert_eq!(clamp_step_usize(9, 1, 10), 9);
}
