//! A terminal status line: a cycling marker drawn in place beside a text,
//! which can be committed with an outcome mark before the animation goes on
//! on a fresh line.
//!
//! The handle, the ticker and the renderer share one ordered channel. The
//! renderer alone decides what is drawn; whoever owns the output stream
//! writes what it hands out and flushes.

pub mod channel;
pub mod display;
pub mod engine;
pub mod signal;
pub mod spinner;
pub mod status;
