//! I/O-free coroutine to create a filesystem file.

use vstd::prelude::*;

use crate::error::{FsError, FsResult};
use crate::io::{FsIo, FsIoKind};

verus! {

/// I/O-free coroutine to create a filesystem file.
pub struct CreateFile {
    contents: Option<(String, Vec<u8>)>,
}

impl CreateFile {
    /// The not-yet-consumed input path and contents, if any.
    pub closed spec fn pending(&self) -> Option<(String, Vec<u8>)> {
        self.contents
    }

    /// The pure transition of the coroutine: from the pending input and the
    /// resume argument to the next pending input and the resume outcome.
    pub open spec fn transition(pending: Option<(String, Vec<u8>)>, arg: Option<FsIo>) -> (Option<
        (String, Vec<u8>),
    >, FsResult<()>) {
        match arg {
            None => match pending {
                Some(contents) => (None, FsResult::Io(FsIo::CreateFile(Err(contents)))),
                None => (None, FsResult::Failed(FsError::MissingInput)),
            },
            Some(env) => (
                pending,
                match env {
                    FsIo::CreateFile(Ok(_)) => FsResult::Done(()),
                    _ => FsResult::Failed(FsError::InvalidArgument(FsIoKind::CreateFile, env)),
                },
            ),
        }
    }

    /// Creates a new coroutine from the given file path and raw contents.
    pub fn new(path: String, contents: Vec<u8>) -> (c: Self)
        ensures
            c.pending() == Some((path, contents)),
    {
        CreateFile { contents: Some((path, contents)) }
    }

    /// Makes the coroutine progress.
    pub fn resume(&mut self, arg: Option<FsIo>) -> (r: FsResult<()>)
        ensures
            (final(self).pending(), r) == Self::transition(old(self).pending(), arg),
    {
        match arg {
            None => match self.contents.take() {
                Some(contents) => FsResult::Io(FsIo::CreateFile(Err(contents))),
                None => FsResult::Failed(FsError::MissingInput),
            },
            Some(env) => match env {
                FsIo::CreateFile(Ok(_)) => FsResult::Done(()),
                _ => FsResult::Failed(FsError::InvalidArgument(FsIoKind::CreateFile, env)),
            },
        }
    }

    /// The coroutine is single-use: the first resume with no argument on a
    /// fresh coroutine emits the pending request wrapping its input, and a
    /// second one, made without supplying a response in between, reports the
    /// misuse.
    pub proof fn lemma_single_use(contents: (String, Vec<u8>))
        ensures
            ({
                let (s1, r1) = Self::transition(Some(contents), None);
                let (s2, r2) = Self::transition(s1, None);
                &&& r1 == FsResult::<()>::Io(FsIo::CreateFile(Err(contents)))
                &&& s1 == None::<(String, Vec<u8>)>
                &&& r2 == FsResult::<()>::Failed(FsError::MissingInput)
            }),
    {
    }

    /// An envelope of the wrong kind, or one still carrying a pending
    /// request, is rejected with `InvalidArgument` and never yields a
    /// success outcome.
    pub proof fn lemma_rejects_mismatched_response(
        pending: Option<(String, Vec<u8>)>,
        env: FsIo,
    )
        requires
            !(env matches FsIo::CreateFile(Ok(_))),
        ensures
            Self::transition(pending, Some(env)) == (
                pending,
                FsResult::<()>::Failed(FsError::InvalidArgument(FsIoKind::CreateFile, env)),
            ),
    {
    }
}

} // verus!
