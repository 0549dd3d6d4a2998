//! A thin, ownership-safe wrapper around a native 2D vector-graphics
//! library.
//!
//! The native library does all rendering; this crate supplies the binding
//! discipline around it: each wrapper object owns exactly one native handle,
//! every integer status a native call reports is translated into a typed
//! error, and draw calls go through short-lived sessions that borrow a
//! drawing context together with a pen or brush exclusively, so no handle
//! can be used while mutably aliased.
//!
//! The native calls themselves happen outside this crate. Each fallible
//! operation here takes the reported status of its native call and decides
//! what the caller sees: on status `0` it succeeds and commits any tracked
//! state, on any other status it leaves its state untouched and returns the
//! translated error.

pub mod brush;
pub mod enums;
pub mod graphics;
pub mod pen;
pub mod types;

pub use types::Error;
