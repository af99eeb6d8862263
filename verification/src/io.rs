//! Filesystem I/O requests and responses.

use vstd::prelude::*;

verus! {

/// The operation kind an envelope can carry. A coroutine that rejects a
/// response names the kind it expected with one of these tags.
#[derive(Clone, Copy, Debug, PartialEq, Eq, Structural)]
pub enum FsIoKind {
    CreateDir,
    CreateDirs,
    CreateFile,
    CreateFiles,
    ReadDir,
    ReadFile,
    ReadFiles,
    RemoveDir,
    RemoveDirs,
    RemoveFile,
    RemoveFiles,
    Rename,
}

/// The filesystem I/O request and response enum, emitted by coroutines and
/// processed by runtimes.
///
/// Each variant carries exactly one operation kind and exactly one of two
/// payloads: the pending request payload on the `Err` side, or the ready
/// response payload on the `Ok` side. Callers distinguish the direction by
/// which side is populated.
#[derive(Debug)]
pub enum FsIo {
    /// Create a directory. Input: its path. Output: none.
    CreateDir(Result<(), String>),
    /// Create several directories. Input: the paths, without duplicates.
    /// Output: none.
    CreateDirs(Result<(), Vec<String>>),
    /// Create (or truncate) a file. Input: its path and raw contents.
    /// Output: none.
    CreateFile(Result<(), (String, Vec<u8>)>),
    /// Create several files. Input: path and contents pairs, with no path
    /// repeated. Output: none.
    CreateFiles(Result<(), Vec<(String, Vec<u8>)>>),
    /// List the immediate entries of a directory. Input: its path.
    /// Output: the entry paths.
    ReadDir(Result<Vec<String>, String>),
    /// Read a file. Input: its path. Output: its raw contents.
    ReadFile(Result<Vec<u8>, String>),
    /// Read several files. Input: the paths, without duplicates.
    /// Output: path and contents pairs.
    ReadFiles(Result<Vec<(String, Vec<u8>)>, Vec<String>>),
    /// Remove a directory together with everything inside it. Input: its
    /// path. Output: none.
    RemoveDir(Result<(), String>),
    /// Remove several directories, each with its contents. Input: the paths,
    /// without duplicates. Output: none.
    RemoveDirs(Result<(), Vec<String>>),
    /// Remove a file. Input: its path. Output: none.
    RemoveFile(Result<(), String>),
    /// Remove several files. Input: the paths, without duplicates.
    /// Output: none.
    RemoveFiles(Result<(), Vec<String>>),
    /// Rename files or directories, in order. Input: (source, destination)
    /// pairs. Output: none.
    Rename(Result<(), Vec<(String, String)>>),
}

impl FsIo {
    /// The operation kind this envelope carries.
    pub open spec fn kind(&self) -> FsIoKind {
        match self {
            FsIo::CreateDir(_) => FsIoKind::CreateDir,
            FsIo::CreateDirs(_) => FsIoKind::CreateDirs,
            FsIo::CreateFile(_) => FsIoKind::CreateFile,
            FsIo::CreateFiles(_) => FsIoKind::CreateFiles,
            FsIo::ReadDir(_) => FsIoKind::ReadDir,
            FsIo::ReadFile(_) => FsIoKind::ReadFile,
            FsIo::ReadFiles(_) => FsIoKind::ReadFiles,
            FsIo::RemoveDir(_) => FsIoKind::RemoveDir,
            FsIo::RemoveDirs(_) => FsIoKind::RemoveDirs,
            FsIo::RemoveFile(_) => FsIoKind::RemoveFile,
            FsIo::RemoveFiles(_) => FsIoKind::RemoveFiles,
            FsIo::Rename(_) => FsIoKind::Rename,
        }
    }

    /// True when the envelope still carries a pending request payload.
    pub open spec fn is_request(&self) -> bool {
        match self {
            FsIo::CreateDir(io) => io is Err,
            FsIo::CreateDirs(io) => io is Err,
            FsIo::CreateFile(io) => io is Err,
            FsIo::CreateFiles(io) => io is Err,
            FsIo::ReadDir(io) => io is Err,
            FsIo::ReadFile(io) => io is Err,
            FsIo::ReadFiles(io) => io is Err,
            FsIo::RemoveDir(io) => io is Err,
            FsIo::RemoveDirs(io) => io is Err,
            FsIo::RemoveFile(io) => io is Err,
            FsIo::RemoveFiles(io) => io is Err,
            FsIo::Rename(io) => io is Err,
        }
    }

    /// True when the envelope carries a ready response payload.
    pub open spec fn is_response(&self) -> bool {
        !self.is_request()
    }

    /// True when the envelope still carries a pending request payload.
    pub fn carries_request(&self) -> (r: bool)
        ensures
            r == self.is_request(),
    {
        match self {
            FsIo::CreateDir(io) => io.is_err(),
            FsIo::CreateDirs(io) => io.is_err(),
            FsIo::CreateFile(io) => io.is_err(),
            FsIo::CreateFiles(io) => io.is_err(),
            FsIo::ReadDir(io) => io.is_err(),
            FsIo::ReadFile(io) => io.is_err(),
            FsIo::ReadFiles(io) => io.is_err(),
            FsIo::RemoveDir(io) => io.is_err(),
            FsIo::RemoveDirs(io) => io.is_err(),
            FsIo::RemoveFile(io) => io.is_err(),
            FsIo::RemoveFiles(io) => io.is_err(),
            FsIo::Rename(io) => io.is_err(),
        }
    }
}

} // verus!
