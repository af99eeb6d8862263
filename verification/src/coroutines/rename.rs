//! I/O-free coroutine to rename multiple filesystem files and/or
//! directories.

use vstd::prelude::*;

use crate::error::{FsError, FsResult};
use crate::io::{FsIo, FsIoKind};

verus! {

/// I/O-free coroutine to rename multiple filesystem files and/or
/// directories. The (source, destination) pairs are applied in order.
pub struct Rename {
    sources: Option<Vec<(String, String)>>,
}

impl Rename {
    /// The not-yet-consumed (source, destination) pairs, if any.
    pub closed spec fn pending(&self) -> Option<Vec<(String, String)>> {
        self.sources
    }

    /// The pure transition of the coroutine: from the pending input and the
    /// resume argument to the next pending input and the resume outcome.
    pub open spec fn transition(
        pending: Option<Vec<(String, String)>>,
        arg: Option<FsIo>,
    ) -> (Option<Vec<(String, String)>>, FsResult<()>) {
        match arg {
            None => match pending {
                Some(sources) => (None, FsResult::Io(FsIo::Rename(Err(sources)))),
                None => (None, FsResult::Failed(FsError::MissingInput)),
            },
            Some(env) => (
                pending,
                match env {
                    FsIo::Rename(Ok(_)) => FsResult::Done(()),
                    _ => FsResult::Failed(FsError::InvalidArgument(FsIoKind::Rename, env)),
                },
            ),
        }
    }

    /// Creates a new coroutine from the given (source, destination) pairs,
    /// kept in the given order.
    pub fn new(sources: Vec<(String, String)>) -> (c: Self)
        ensures
            c.pending() == Some(sources),
    {
        Rename { sources: Some(sources) }
    }

    /// Makes the coroutine progress.
    pub fn resume(&mut self, arg: Option<FsIo>) -> (r: FsResult<()>)
        ensures
            (final(self).pending(), r) == Self::transition(old(self).pending(), arg),
    {
        match arg {
            None => match self.sources.take() {
                Some(sources) => FsResult::Io(FsIo::Rename(Err(sources))),
                None => FsResult::Failed(FsError::MissingInput),
            },
            Some(env) => match env {
                FsIo::Rename(Ok(_)) => FsResult::Done(()),
                _ => FsResult::Failed(FsError::InvalidArgument(FsIoKind::Rename, env)),
            },
        }
    }

    /// The coroutine is single-use: the first resume with no argument on a
    /// fresh coroutine emits the pending request wrapping its input, and a
    /// second one, made without supplying a response in between, reports the
    /// misuse.
    pub proof fn lemma_single_use(sources: Vec<(String, String)>)
        ensures
            ({
                let (s1, r1) = Self::transition(Some(sources), None);
                let (s2, r2) = Self::transition(s1, None);
                &&& r1 == FsResult::<()>::Io(FsIo::Rename(Err(sources)))
                &&& s1 == None::<Vec<(String, String)>>
                &&& r2 == FsResult::<()>::Failed(FsError::MissingInput)
            }),
    {
    }

    /// An envelope of the wrong kind, or one still carrying a pending
    /// request, is rejected with `InvalidArgument` and never yields a
    /// success outcome.
    pub proof fn lemma_rejects_mismatched_response(
        pending: Option<Vec<(String, String)>>,
        env: FsIo,
    )
        requires
            !(env matches FsIo::Rename(Ok(_))),
        ensures
            Self::transition(pending, Some(env)) == (
                pending,
                FsResult::<()>::Failed(FsError::InvalidArgument(FsIoKind::Rename, env)),
            ),
    {
    }
}

} // verus!
