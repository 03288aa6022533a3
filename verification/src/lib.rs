//! A directory bookmark manager: an ordered list of filesystem paths with a
//! selection cursor, keyboard-driven navigation and mutation, a pure renderer,
//! and a TOML-backed store.

pub mod bookmark;
pub mod input;
pub mod render;
pub mod session;
pub mod store;
