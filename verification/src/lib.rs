//! Movement and control core of a background cursor jiggler.
//!
//! The crate holds the decisions of the program and none of its I/O: which
//! motion vector comes next under each movement policy, how long the engine
//! sleeps, and how a key event changes the run/pause/exit signals. Every
//! function carries a contract that Verus proves.

pub mod keys;
pub mod settings;
pub mod random;
pub mod control;
pub mod motion;
pub mod engine;
