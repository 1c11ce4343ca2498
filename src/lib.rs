//! A single-owner heap box over a small typed allocation layer.
//!
//! `allocate` and `free` place one value in a heap cell and take it back out,
//! `RawArray` is a reserved block with a logical prefix of live elements, and
//! `Box` is the owning pointer that moves between its armed form and its raw
//! handle (`Unique`).
pub mod boxed;
pub mod heap;
pub mod unique;

pub use boxed::Box;
pub use heap::{alloc_array, allocate, free, free_array, free_array_ptr, realloc_fallback, RawArray};
pub use unique::Unique;
