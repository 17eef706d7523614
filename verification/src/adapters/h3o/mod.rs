//! The in-process adapter, on the hexagonal grid of the `h3o` crate.
pub mod common;
pub mod h3;
