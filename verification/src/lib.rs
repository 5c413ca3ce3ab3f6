//! Platform video subsystem of a small game-engine skeleton.
//!
//! The library owns the pure, verifiable part of the engine: the window
//! state machine that folds window-system notifications (resize, focus
//! change, close) into a polled snapshot, plus the string and geometry
//! computations used when the window is created. The host binary performs
//! the actual operating-system calls and hands their results to the
//! library as plain values.

pub mod engine;
pub mod video;
