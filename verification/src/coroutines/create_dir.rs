//! I/O-free coroutine to create a filesystem directory.

use vstd::prelude::*;

use crate::error::{FsError, FsResult};
use crate::io::{FsIo, FsIoKind};

verus! {

/// I/O-free coroutine to create a filesystem directory.
pub struct CreateDir {
    path: Option<String>,
}

impl CreateDir {
    /// The not-yet-consumed input path, if any.
    pub closed spec fn pending(&self) -> Option<String> {
        self.path
    }

    /// The pure transition of the coroutine: from the pending input and the
    /// resume argument to the next pending input and the resume outcome.
    pub open spec fn transition(pending: Option<String>, arg: Option<FsIo>) -> (Option<
        String,
    >, FsResult<()>) {
        match arg {
            None => match pending {
                Some(path) => (None, FsResult::Io(FsIo::CreateDir(Err(path)))),
                None => (None, FsResult::Failed(FsError::MissingInput)),
            },
            Some(env) => (
                pending,
                match env {
                    FsIo::CreateDir(Ok(_)) => FsResult::Done(()),
                    _ => FsResult::Failed(FsError::InvalidArgument(FsIoKind::CreateDir, env)),
                },
            ),
        }
    }

    /// Creates a new coroutine from the given directory path.
    pub fn new(path: String) -> (c: Self)
        ensures
            c.pending() == Some(path),
    {
        CreateDir { path: Some(path) }
    }

    /// Makes the coroutine progress.
    pub fn resume(&mut self, arg: Option<FsIo>) -> (r: FsResult<()>)
        ensures
            (final(self).pending(), r) == Self::transition(old(self).pending(), arg),
    {
        match arg {
            None => match self.path.take() {
                Some(path) => FsResult::Io(FsIo::CreateDir(Err(path))),
                None => FsResult::Failed(FsError::MissingInput),
            },
            Some(env) => match env {
                FsIo::CreateDir(Ok(_)) => FsResult::Done(()),
                _ => FsResult::Failed(FsError::InvalidArgument(FsIoKind::CreateDir, env)),
            },
        }
    }

    /// The coroutine is single-use: the first resume with no argument on a
    /// fresh coroutine emits the pending request wrapping its input, and a
    /// second one, made without supplying a response in between, reports the
    /// misuse.
    pub proof fn lemma_single_use(path: String)
        ensures
            ({
                let (s1, r1) = Self::transition(Some(path), None);
                let (s2, r2) = Self::transition(s1, None);
                &&& r1 == FsResult::<()>::Io(FsIo::CreateDir(Err(path)))
                &&& s1 == None::<String>
                &&& r2 == FsResult::<()>::Failed(FsError::MissingInput)
            }),
    {
    }

    /// An envelope of the wrong kind, or one still carrying a pending
    /// request, is rejected with `InvalidArgument` and never yields a
    /// success outcome.
    pub proof fn lemma_rejects_mismatched_response(pending: Option<String>, env: FsIo)
        requires
            !(env matches FsIo::CreateDir(Ok(_))),
        ensures
            Self::transition(pending, Some(env)) == (
                pending,
                FsResult::<()>::Failed(FsError::InvalidArgument(FsIoKind::CreateDir, env)),
            ),
    {
    }
}

} // verus!
