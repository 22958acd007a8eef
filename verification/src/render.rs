//! The render loop's per-frame logic and control flow.
//!
//! Once the presentation pipeline has built the resource chain, the render
//! thread repeats: begin a drawing batch, draw, end the batch, present. The
//! draw step composes the frame color from the two animation channels and
//! advances the frame-owned channel by one unit. A failure ending the batch
//! is fatal and becomes the loop's error result; a failure presenting the
//! frame is an expected termination (window closed, device removed) and ends
//! the loop successfully.

use crate::anim::Channel;
use crate::anim::SCALE;
use vstd::prelude::*;

verus! {

/// A frame color in fixed point: each field is an intensity numerator over
/// [`SCALE`], so `SCALE` itself is full intensity.
#[derive(Clone, Copy, Debug, PartialEq, Eq, Structural)]
pub struct Color {
    /// Red intensity numerator.
    pub r: u32,
    /// Green intensity numerator.
    pub g: u32,
    /// Blue intensity numerator.
    pub b: u32,
    /// Alpha numerator.
    pub a: u32,
}

/// What the render loop does after a platform call of the frame cycle.
#[derive(Clone, Copy, Debug, PartialEq, Eq, Structural)]
pub enum FrameFlow {
    /// Go on with the current frame cycle.
    Proceed,
    /// Leave the loop successfully: presentation reported the expected
    /// terminal condition.
    ExitOk,
    /// Leave the loop with this fatal platform result code.
    ExitErr(i32),
}

/// One draw step: read both animation channels into the frame's clear color
/// (blue and alpha at full intensity), then advance the frame-owned channel
/// by one unit, wrapping.
pub fn draw_step(frame_channel: &mut Channel, key_channel_value: u32) -> (c: Color)
    requires
        old(frame_channel).wf(),
    ensures
        final(frame_channel).wf(),
        c.r as int == old(frame_channel)@,
        c.g == key_channel_value,
        c.b == SCALE,
        c.a == SCALE,
        final(frame_channel)@ == (old(frame_channel)@ + 1) % (SCALE as int),
{
    let r = frame_channel.get();
    frame_channel.advance(1);
    Color { r, g: key_channel_value, b: SCALE, a: SCALE }
}

/// Classify the result of ending the drawing batch: any failure there is
/// fatal and becomes the loop's error result.
pub fn after_end_draw(result: Result<(), i32>) -> (f: FrameFlow)
    ensures
        result is Ok <==> f is Proceed,
        result matches Err(code) ==> f == FrameFlow::ExitErr(code),
{
    match result {
        Ok(()) => FrameFlow::Proceed,
        Err(code) => FrameFlow::ExitErr(code),
    }
}

/// Classify the result of presenting the frame: success continues the loop;
/// any presentation failure is the expected termination condition and ends
/// the loop successfully, never as an error.
pub fn after_present(result: Result<(), i32>) -> (f: FrameFlow)
    ensures
        result is Ok <==> f is Proceed,
        result is Err ==> f is ExitOk,
        !(f is ExitErr),
{
    match result {
        Ok(()) => FrameFlow::Proceed,
        Err(_) => FrameFlow::ExitOk,
    }
}

} // verus!
