//! I/O-free coroutine to create multiple filesystem files.

use vstd::prelude::*;

use crate::batch::{dedup_entries, distinct_keys, entry_map};
use crate::error::{FsError, FsResult};
use crate::io::{FsIo, FsIoKind};

verus! {

/// I/O-free coroutine to create multiple filesystem files.
///
/// The input is a mapping from path to raw contents: of two entries with the
/// same path, the later one wins when the coroutine is constructed.
pub struct CreateFiles {
    contents: Option<Vec<(String, Vec<u8>)>>,
}

impl CreateFiles {
    /// The not-yet-consumed input entries, if any.
    pub closed spec fn pending(&self) -> Option<Vec<(String, Vec<u8>)>> {
        self.contents
    }

    /// The pure transition of the coroutine: from the pending input and the
    /// resume argument to the next pending input and the resume outcome.
    pub open spec fn transition(
        pending: Option<Vec<(String, Vec<u8>)>>,
        arg: Option<FsIo>,
    ) -> (Option<Vec<(String, Vec<u8>)>>, FsResult<()>) {
        match arg {
            None => match pending {
                Some(contents) => (None, FsResult::Io(FsIo::CreateFiles(Err(contents)))),
                None => (None, FsResult::Failed(FsError::MissingInput)),
            },
            Some(env) => (
                pending,
                match env {
                    FsIo::CreateFiles(Ok(_)) => FsResult::Done(()),
                    _ => FsResult::Failed(FsError::InvalidArgument(FsIoKind::CreateFiles, env)),
                },
            ),
        }
    }

    /// Creates a new coroutine from the given file paths and contents;
    /// entries with the same path collapse, as in a mapping, the later one
    /// winning.
    pub fn new(contents: Vec<(String, Vec<u8>)>) -> (c: Self)
        ensures
            c.pending() matches Some(es) && distinct_keys(es@) && entry_map(es@) == entry_map(
                contents@,
            ),
    {
        CreateFiles { contents: Some(dedup_entries(contents)) }
    }

    /// Makes the coroutine progress.
    pub fn resume(&mut self, arg: Option<FsIo>) -> (r: FsResult<()>)
        ensures
            (final(self).pending(), r) == Self::transition(old(self).pending(), arg),
    {
        match arg {
            None => match self.contents.take() {
                Some(contents) => FsResult::Io(FsIo::CreateFiles(Err(contents))),
                None => FsResult::Failed(FsError::MissingInput),
            },
            Some(env) => match env {
                FsIo::CreateFiles(Ok(_)) => FsResult::Done(()),
                _ => FsResult::Failed(FsError::InvalidArgument(FsIoKind::CreateFiles, env)),
            },
        }
    }

    /// The coroutine is single-use: the first resume with no argument on a
    /// fresh coroutine emits the pending request wrapping its input, and a
    /// second one, made without supplying a response in between, reports the
    /// misuse.
    pub proof fn lemma_single_use(contents: Vec<(String, Vec<u8>)>)
        ensures
            ({
                let (s1, r1) = Self::transition(Some(contents), None);
                let (s2, r2) = Self::transition(s1, None);
                &&& r1 == FsResult::<()>::Io(FsIo::CreateFiles(Err(contents)))
                &&& s1 == None::<Vec<(String, Vec<u8>)>>
                &&& r2 == FsResult::<()>::Failed(FsError::MissingInput)
            }),
    {
    }

    /// An envelope of the wrong kind, or one still carrying a pending
    /// request, is rejected with `InvalidArgument` and never yields a
    /// success outcome.
    pub proof fn lemma_rejects_mismatched_response(
        pending: Option<Vec<(String, Vec<u8>)>>,
        env: FsIo,
    )
        requires
            !(env matches FsIo::CreateFiles(Ok(_))),
        ensures
            Self::transition(pending, Some(env)) == (
                pending,
                FsResult::<()>::Failed(FsError::InvalidArgument(FsIoKind::CreateFiles, env)),
            ),
    {
    }
}

} // verus!
