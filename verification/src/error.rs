//! Filesystem coroutines errors.

use vstd::prelude::*;

use crate::io::{FsIo, FsIoKind};

verus! {

/// Errors that can occur during any filesystem coroutine progression.
///
/// Only coroutine misuses lead to these variants, never a filesystem
/// condition. They are terminal for the coroutine that reports them.
#[derive(Debug)]
pub enum FsError {
    /// The coroutine input is missing or has already been consumed.
    ///
    /// Occurs when the coroutine is resumed with no argument twice without
    /// completing the request/response round trip in between.
    MissingInput,
    /// The coroutine received an envelope it cannot consume: one of the
    /// wrong operation kind, or one still carrying a pending request rather
    /// than a ready response. Names the kind whose response was expected and
    /// holds the envelope that was received.
    InvalidArgument(FsIoKind, FsIo),
}

/// Output emitted after a coroutine progresses.
#[derive(Debug)]
pub enum FsResult<T = ()> {
    /// The coroutine has successfully terminated its progression.
    Done(T),
    /// A misuse error occurred during the coroutine progression.
    Failed(FsError),
    /// A filesystem I/O needs to be performed to make the coroutine
    /// progress.
    Io(FsIo),
}

} // verus!
