//! I/O-free coroutine to remove a filesystem directory together with its
//! contents.

use vstd::prelude::*;

use crate::error::{FsError, FsResult};
use crate::io::{FsIo, FsIoKind};

verus! {

/// I/O-free coroutine to remove a filesystem directory together with its
/// contents.
pub struct RemoveDir {
    path: Option<String>,
}

impl RemoveDir {
    /// The not-yet-consumed input path, if any.
    pub closed spec fn pending(&self) -> Option<String> {
        self.path
    }

    /// The pure transition of the coroutine: from the pending input and the
    /// resume argument to the next pending input and the resume outcome.
    pub open spec fn transition(pending: Option<String>, arg: Option<FsIo>) -> (Option<
        String,
    >, FsResult<()>) {
        match arg {
            None => match pending {
                Some(path) => (None, FsResult::Io(FsIo::RemoveDir(Err(path)))),
                None => (None, FsResult::Failed(FsError::MissingInput)),
            },
            Some(env) => (
                pending,
                match env {
                    FsIo::RemoveDir(Ok(_)) => FsResult::Done(()),
                    _ => FsResult::Failed(FsError::InvalidArgument(FsIoKind::RemoveDir, env)),
                },
            ),
        }
    }

    /// Creates a new coroutine from the given directory path.
    pub fn new(path: String) -> (c: Self)
        ensures
            c.pending() == Some(path),
    {
        RemoveDir { path: Some(path) }
    }

    /// Makes the coroutine progress.
    pub fn resume(&mut self, arg: Option<FsIo>) -> (r: FsResult<()>)
        ensures
            (final(self).pending(), r) == Self::transition(old(self).pending(), arg),
    {
        match arg {
            None => match self.path.take() {
                Some(path) => FsResult::Io(FsIo::RemoveDir(Err(path))),
                None => FsResult::Failed(FsError::MissingInput),
            },
            Some(env) => match env {
                FsIo::RemoveDir(Ok(_)) => FsResult::Done(()),
                _ => FsResult::Failed(FsError::InvalidArgument(FsIoKind::RemoveDir, env)),
            },
        }
    }

    /// The coroutine is single-use: the first resume with no argument on a
    /// fresh coroutine emits the pending request wrapping its input, and a
    /// second one, made without supplying a response in between, reports the
    /// misuse.
    pub proof fn lemma_single_use(path: String)
        ensures
            ({
                let (s1, r1) = Self::transition(Some(path), None);
                let (s2, r2) = Self::transition(s1, None);
                &&& r1 == FsResult::<()>::Io(FsIo::RemoveDir(Err(path)))
                &&& s1 == None::<String>
                &&& r2 == FsResult::<()>::Failed(FsError::MissingInput)
            }),
    {
    }

    /// An envelope of the wrong kind, or one still carrying a pending
    /// request, is rejected with `InvalidArgument` and never yields a
    /// success outcome.
    pub proof fn lemma_rejects_mismatched_response(pending: Option<String>, env: FsIo)
        requires
            !(env matches FsIo::RemoveDir(Ok(_))),
        ensures
            Self::transition(pending, Some(env)) == (
                pending,
                FsResult::<()>::Failed(FsError::InvalidArgument(FsIoKind::RemoveDir, env)),
            ),
    {
    }
}

} // verus!
