//! An incremental Fibonacci sequence generator.
//!
//! The core is [`fibonacci::FibState`], a two-register state machine that
//! produces the sequence `0, 1, 1, 2, 3, 5, 8, ...` one term at a time.
//! The [`guest`] module wraps it in the validate-before-mutate entry points
//! that a plugin host calls.

pub mod fibonacci;
pub mod guest;
