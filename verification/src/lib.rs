//! A unification layer over discrete global grid reference systems.
//!
//! The crate models zone identifiers and refinement arithmetic, states the
//! contract of the query port, and holds the decision logic of three backend
//! adapters: a batch executable driven through files, a native grid library
//! and an in-process hexagonal grid library.
pub mod adapters;
pub mod constants;
pub mod error;
pub mod factory;
pub mod geometry;
pub mod models;
pub mod polyhedron;
pub mod ports;
pub mod registry;
pub mod text;

pub use factory::get;
pub use registry::registry;
