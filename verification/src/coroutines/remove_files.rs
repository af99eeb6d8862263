//! I/O-free coroutine to remove multiple filesystem files.

use vstd::prelude::*;

use crate::batch::{dedup_paths, distinct_paths, path_set};
use crate::error::{FsError, FsResult};
use crate::io::{FsIo, FsIoKind};

verus! {

/// I/O-free coroutine to remove multiple filesystem files.
///
/// The input is an unordered set of paths: duplicates collapse when the
/// coroutine is constructed.
pub struct RemoveFiles {
    paths: Option<Vec<String>>,
}

impl RemoveFiles {
    /// The not-yet-consumed input paths, if any.
    pub closed spec fn pending(&self) -> Option<Vec<String>> {
        self.paths
    }

    /// The pure transition of the coroutine: from the pending input and the
    /// resume argument to the next pending input and the resume outcome.
    pub open spec fn transition(pending: Option<Vec<String>>, arg: Option<FsIo>) -> (Option<
        Vec<String>,
    >, FsResult<()>) {
        match arg {
            None => match pending {
                Some(paths) => (None, FsResult::Io(FsIo::RemoveFiles(Err(paths)))),
                None => (None, FsResult::Failed(FsError::MissingInput)),
            },
            Some(env) => (
                pending,
                match env {
                    FsIo::RemoveFiles(Ok(_)) => FsResult::Done(()),
                    _ => FsResult::Failed(FsError::InvalidArgument(FsIoKind::RemoveFiles, env)),
                },
            ),
        }
    }

    /// Creates a new coroutine from the given file paths; duplicates
    /// collapse, as in a set.
    pub fn new(paths: Vec<String>) -> (c: Self)
        ensures
            c.pending() matches Some(ps) && distinct_paths(ps@) && path_set(ps@) == path_set(
                paths@,
            ),
    {
        RemoveFiles { paths: Some(dedup_paths(paths)) }
    }

    /// Makes the coroutine progress.
    pub fn resume(&mut self, arg: Option<FsIo>) -> (r: FsResult<()>)
        ensures
            (final(self).pending(), r) == Self::transition(old(self).pending(), arg),
    {
        match arg {
            None => match self.paths.take() {
                Some(paths) => FsResult::Io(FsIo::RemoveFiles(Err(paths))),
                None => FsResult::Failed(FsError::MissingInput),
            },
            Some(env) => match env {
                FsIo::RemoveFiles(Ok(_)) => FsResult::Done(()),
                _ => FsResult::Failed(FsError::InvalidArgument(FsIoKind::RemoveFiles, env)),
            },
        }
    }

    /// The coroutine is single-use: the first resume with no argument on a
    /// fresh coroutine emits the pending request wrapping its input, and a
    /// second one, made without supplying a response in between, reports the
    /// misuse.
    pub proof fn lemma_single_use(paths: Vec<String>)
        ensures
            ({
                let (s1, r1) = Self::transition(Some(paths), None);
                let (s2, r2) = Self::transition(s1, None);
                &&& r1 == FsResult::<()>::Io(FsIo::RemoveFiles(Err(paths)))
                &&& s1 == None::<Vec<String>>
                &&& r2 == FsResult::<()>::Failed(FsError::MissingInput)
            }),
    {
    }

    /// An envelope of the wrong kind, or one still carrying a pending
    /// request, is rejected with `InvalidArgument` and never yields a
    /// success outcome.
    pub proof fn lemma_rejects_mismatched_response(pending: Option<Vec<String>>, env: FsIo)
        requires
            !(env matches FsIo::RemoveFiles(Ok(_))),
        ensures
            Self::transition(pending, Some(env)) == (
                pending,
                FsResult::<()>::Failed(FsError::InvalidArgument(FsIoKind::RemoveFiles, env)),
            ),
    {
    }
}

} // verus!
