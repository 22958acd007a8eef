//! Coordination core of a minimal windowed rendering application.
//!
//! Three execution contexts cooperate around one platform window: a main
//! thread that pumps platform messages, a render thread that drives a
//! presentation pipeline and a draw/present loop, and an OS-invoked global
//! key-event callback. This crate holds the verified decision logic of that
//! coordination: message routing and the shutdown latch, the device-creation
//! fallback, the fail-fast presentation pipeline, the per-frame control flow,
//! and the fixed-point animation channels that key events and frames advance.
//! The platform calls themselves (window, GPU, hook) live outside, in the
//! surrounding binary, which feeds their outcomes to these state machines.

pub mod anim;
pub mod controller;
pub mod device;
pub mod input;
pub mod pipeline;
pub mod render;
