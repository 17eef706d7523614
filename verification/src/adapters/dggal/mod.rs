//! The adapter of the native grid library. The one context of the library
//! that a process may hold is handed in by the caller, who guards it.
pub mod common;
pub mod grids;
