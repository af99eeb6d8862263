//! Collection of I/O-free, resumable filesystem state machines.
//!
//! Coroutines emit [`crate::io::FsIo`] requests that need to be processed by
//! a runtime in order to continue their progression. Each one is single-use:
//! it owns its input until the first resume with no argument consumes it, and
//! terminates on a later resume that supplies the matching response.

pub mod create_dir;
pub mod create_dirs;
pub mod create_file;
pub mod create_files;
pub mod read_dir;
pub mod read_file;
pub mod read_files;
pub mod remove_dir;
pub mod remove_dirs;
pub mod remove_file;
pub mod remove_files;
pub mod rename;
