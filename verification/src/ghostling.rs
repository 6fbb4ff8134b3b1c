//! The logic of a small terminal emulator on top of the engine.
pub mod encoding;
pub mod frame;
pub mod images;
pub mod input;
pub mod pty;
pub mod setup;
