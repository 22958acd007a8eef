//! Tests of the fixed-point animation channels and the per-frame draw step.

use winloop::anim::{Channel, SCALE};
use winloop::render::{after_end_draw, after_present, draw_step, FrameFlow};

#[test]
fn fresh_channel_is_zero() {
    let c = Channel::new();
    assert_eq!(c.get(), 0);
}

#[test]
fn advance_adds_below_the_wrap() {
    let mut c = Channel::new();
    c.advance(200);
    assert_eq!(c.get(), 200);
}

#[test]
fn advance_wraps_modulo_scale() {
    let mut c = Channel::new();
    c.advance(200);
    c.advance(100);
    // (200 + 100) mod 255
    assert_eq!(c.get(), 45);
}

#[test]
fn advance_wraps_to_zero_at_the_boundary() {
    let mut c = Channel::new();
    c.advance(254);
    c.advance(1);
    assert_eq!(c.get(), 0);
}

#[test]
fn advance_by_more_than_a_whole_turn() {
    let mut c = Channel::new();
    c.advance(1000);
    // 1000 mod 255
    assert_eq!(c.get(), 235);
}

#[test]
fn advance_many_equals_single_wrap_of_linear_sum() {
    // The wrap law on concrete values: N steps of d from x land on
    // (x + d * N) mod 255.
    let mut c = Channel::new();
    c.advance(250);
    c.advance_many(10, 3);
    assert_eq!(c.get(), (250 + 10 * 3) % 255);

    let mut f = Channel::new();
    f.advance_many(1, 300);
    assert_eq!(f.get(), 300 % 255);

    let mut z = Channel::new();
    z.advance_many(0, 17);
    assert_eq!(z.get(), 0);
}

#[test]
fn draw_step_reads_both_channels_and_advances_the_frame_one() {
    let mut frame = Channel::new();
    frame.advance(7);
    let color = draw_step(&mut frame, 65);
    assert_eq!(color.r, 7);
    assert_eq!(color.g, 65);
    assert_eq!(color.b, SCALE);
    assert_eq!(color.a, SCALE);
    assert_eq!(frame.get(), 8);
}

#[test]
fn draw_step_wraps_the_frame_channel() {
    let mut frame = Channel::new();
    frame.advance(254);
    let color = draw_step(&mut frame, 0);
    assert_eq!(color.r, 254);
    assert_eq!(frame.get(), 0);
}

#[test]
fn end_draw_failure_is_fatal() {
    let f = after_end_draw(Err(-7));
    assert!(matches!(f, FrameFlow::ExitErr(-7)));
    assert!(matches!(after_end_draw(Ok(())), FrameFlow::Proceed));
}

#[test]
fn present_failure_ends_the_loop_successfully() {
    let f = after_present(Err(-3));
    assert!(matches!(f, FrameFlow::ExitOk));
    assert!(matches!(after_present(Ok(())), FrameFlow::Proceed));
}
