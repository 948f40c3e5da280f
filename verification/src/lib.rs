//! Three small, independent demonstrations, each reduced to the value it
//! computes: the lines two concurrent workers write, the outcome of an
//! operation that fails, and the contents of a growable buffer.
//!
//! Nothing here performs I/O. Every function returns the text that a caller
//! may print, and its contract pins that text down.

pub mod concurrency;
pub mod decimal;
pub mod error_handling;
pub mod memory_management;
