//! A four-window text console with a round-robin program scheduler,
//! written as a verified state machine.
//!
//! The library decides; the embedding kernel acts. Every operation returns
//! the screen cells to draw and the file-system and interpreter requests to
//! carry out as a list of [`screen::Effect`] values.

pub mod arith;
pub mod screen;
pub mod window_spec;
pub mod window;
pub mod keys;
pub mod swim_spec;
pub mod swim;
pub mod laws;
