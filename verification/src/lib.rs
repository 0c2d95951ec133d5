//! Dispatch and argument validation for system calls.
//!
//! A system call arrives as six machine words. The first names the service and,
//! in its high bits, the class of the service and the shape of its arguments.
//! This crate decodes that word, checks every memory region the call names
//! against the caller's address space, says which handler is to run with which
//! typed arguments, and folds the handler's outcome into the one word that goes
//! back to the caller.

pub mod error;
pub mod handle;
pub mod number;
pub mod memory;
pub mod decode;
pub mod invocation;
pub mod route;
pub mod context;
pub mod dispatch;

pub use crate::dispatch::syscall;
