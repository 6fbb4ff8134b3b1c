//! The Kitty terminal protocols.
pub mod graphics;
