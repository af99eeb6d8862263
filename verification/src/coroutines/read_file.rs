//! I/O-free coroutine to read filesystem file contents.

use vstd::prelude::*;

use crate::error::{FsError, FsResult};
use crate::io::{FsIo, FsIoKind};

verus! {

/// I/O-free coroutine to read filesystem file contents.
pub struct ReadFile {
    path: Option<String>,
}

impl ReadFile {
    /// The not-yet-consumed input path, if any.
    pub closed spec fn pending(&self) -> Option<String> {
        self.path
    }

    /// The pure transition of the coroutine: from the pending input and the
    /// resume argument to the next pending input and the resume outcome.
    pub open spec fn transition(pending: Option<String>, arg: Option<FsIo>) -> (Option<
        String,
    >, FsResult<Vec<u8>>) {
        match arg {
            None => match pending {
                Some(path) => (None, FsResult::Io(FsIo::ReadFile(Err(path)))),
                None => (None, FsResult::Failed(FsError::MissingInput)),
            },
            Some(env) => (
                pending,
                match env {
                    FsIo::ReadFile(Ok(contents)) => FsResult::Done(contents),
                    _ => FsResult::Failed(FsError::InvalidArgument(FsIoKind::ReadFile, env)),
                },
            ),
        }
    }

    /// Creates a new coroutine from the given file path.
    pub fn new(path: String) -> (c: Self)
        ensures
            c.pending() == Some(path),
    {
        ReadFile { path: Some(path) }
    }

    /// Makes the coroutine progress.
    pub fn resume(&mut self, arg: Option<FsIo>) -> (r: FsResult<Vec<u8>>)
        ensures
            (final(self).pending(), r) == Self::transition(old(self).pending(), arg),
    {
        match arg {
            None => match self.path.take() {
                Some(path) => FsResult::Io(FsIo::ReadFile(Err(path))),
                None => FsResult::Failed(FsError::MissingInput),
            },
            Some(env) => match env {
                FsIo::ReadFile(Ok(contents)) => FsResult::Done(contents),
                _ => FsResult::Failed(FsError::InvalidArgument(FsIoKind::ReadFile, env)),
            },
        }
    }

    /// The coroutine is single-use: the first resume with no argument on a
    /// fresh coroutine emits the pending request wrapping its input, and a
    /// second one, made without supplying a response in between, reports the
    /// misuse.
    pub proof fn lemma_single_use(path: String)
        ensures
            ({
                let (s1, r1) = Self::transition(Some(path), None);
                let (s2, r2) = Self::transition(s1, None);
                &&& r1 == FsResult::<Vec<u8>>::Io(FsIo::ReadFile(Err(path)))
                &&& s1 == None::<String>
                &&& r2 == FsResult::<Vec<u8>>::Failed(FsError::MissingInput)
            }),
    {
    }

    /// An envelope of the wrong kind, or one still carrying a pending
    /// request, is rejected with `InvalidArgument` and never yields a
    /// success outcome.
    pub proof fn lemma_rejects_mismatched_response(pending: Option<String>, env: FsIo)
        requires
            !(env matches FsIo::ReadFile(Ok(_))),
        ensures
            Self::transition(pending, Some(env)) == (
                pending,
                FsResult::<Vec<u8>>::Failed(FsError::InvalidArgument(FsIoKind::ReadFile, env)),
            ),
    {
    }
}

} // verus!
