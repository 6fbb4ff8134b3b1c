//! Idiomatic, safe Rust on top of `libghostty-vt`, a terminal emulation engine with a C interface.
//!
//! # Calls to the engine
//!
//! An operation that asks the engine for something takes the call as a function value, hands it
//! the address of the object and what is asked, and decodes the answer. Its contract says what the
//! call is handed and what comes of every answer that it may give, so that nothing has to be
//! believed of the engine.
//!
//! Where the order of calls matters, they are handed the engine itself, whatever stands for it, and
//! give it back as they left it: the contract then says which call sees the engine after which. An
//! engine that keeps its state to itself is `()`.
//!
//! What the engine itself promises, such as what a reset leaves, is stated as a law over the function
//! values: its premises say what the engine keeps and how it answers, and what follows is said of
//! the results of this library.
//!
//! # Memory management
//!
//! When creating the terminal and various other objects, one can control their memory management
//! via a custom [allocator](memory::Allocator), with constructors like
//! [`Terminal::new_with_alloc`]. The allocator has to outlive the objects.
//!
//! # Thread safety
//!
//! The engine's objects are not thread-safe. The expectation is for them to be managed by a single
//! thread, that may communicate with other threads via channels.
pub mod abi;
pub mod buffer;
pub mod build_info;
pub mod error;
pub mod fmt;
pub mod focus;
pub mod ghostling;
pub mod key;
pub mod kitty;
pub mod lowlevel;
pub mod memory;
pub mod mouse;
pub mod osc;
pub mod paste;
pub mod png_image;
pub mod render;
pub mod reply;
pub mod screen;
pub mod sgr;
pub mod style;
pub mod sys;
pub mod terminal;
mod text;

pub use crate::error::Error;
pub use crate::render::RenderState;
pub use crate::terminal::{Options as TerminalOptions, Terminal};
