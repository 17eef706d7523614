//! The adapter of the batch executable. The library decides what is written
//! to the executable and reads what it wrote; running it and touching files
//! is left to the caller.
pub mod common;
pub mod dggrid;
pub mod igeo7;
pub mod isea3h;
pub mod request;
