//! The backends, each behind the same queries.
pub mod dggal;
pub mod dggrid;
pub mod h3o;
