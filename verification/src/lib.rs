//! An I/O-free protocol for filesystem operations.
//!
//! Every operation (create, read or remove a file or directory, batch
//! variants, rename) is a two-phase coroutine: resumed once with no
//! argument, it emits the I/O it needs as a pending-request [`io::FsIo`]
//! envelope; resumed again with the matching ready-response envelope, it
//! terminates with its outcome. A runtime turns a pending envelope into a
//! ready one by performing the primitive filesystem calls that the planner
//! in [`runtimes`] lays out, so the same operation logic runs unchanged
//! under a blocking or a non-blocking execution backend.

pub mod batch;
pub mod coroutines;
pub mod error;
pub mod io;
pub mod runtimes;
