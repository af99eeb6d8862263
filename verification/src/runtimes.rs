//! The runtime side of the protocol: turning a pending-request envelope into
//! a ready-response one.
//!
//! A runtime performs one primitive filesystem call per element of the
//! request, sequentially and stopping at the first failure. The decision
//! logic lives here and is pure: [`handle`] lays out the primitive calls a
//! pending envelope asks for, and [`finish`] assembles the ready-response
//! envelope out of the calls' outputs. An execution backend only performs
//! each [`FsPrimitive`] (blocking, or suspending within a scheduler) and
//! reports its own I/O failures directly, outside the resume cycle: a failed
//! backend call leaves the request envelope untouched and reusable.

use vstd::pervasive::unreached;
use vstd::prelude::*;

use crate::batch::path_views;
use crate::coroutines::create_dir::CreateDir;
use crate::coroutines::create_dirs::CreateDirs;
use crate::coroutines::create_file::CreateFile;
use crate::coroutines::create_files::CreateFiles;
use crate::coroutines::read_dir::ReadDir;
use crate::coroutines::read_file::ReadFile;
use crate::coroutines::read_files::ReadFiles;
use crate::coroutines::remove_dir::RemoveDir;
use crate::coroutines::remove_dirs::RemoveDirs;
use crate::coroutines::remove_file::RemoveFile;
use crate::coroutines::remove_files::RemoveFiles;
use crate::coroutines::rename::Rename;
use crate::error::FsResult;
use crate::io::FsIo;

verus! {

/// One primitive filesystem call, the unit of work an execution backend
/// performs.
#[derive(Debug)]
pub enum FsPrimitive {
    /// Create one directory, non-recursively.
    CreateDir(String),
    /// Write the raw contents to the path, creating or truncating the file.
    WriteFile(String, Vec<u8>),
    /// List the immediate entries of the directory as full paths.
    ListDir(String),
    /// Read the full raw contents of the file.
    ReadFile(String),
    /// Remove the directory together with everything inside it.
    RemoveDirAll(String),
    /// Remove the file.
    RemoveFile(String),
    /// Rename one file or directory.
    Rename(String, String),
}

/// The mathematical image of a primitive call.
pub enum FsPrimitiveView {
    CreateDir(Seq<char>),
    WriteFile(Seq<char>, Seq<u8>),
    ListDir(Seq<char>),
    ReadFile(Seq<char>),
    RemoveDirAll(Seq<char>),
    RemoveFile(Seq<char>),
    Rename(Seq<char>, Seq<char>),
}

impl View for FsPrimitive {
    type V = FsPrimitiveView;

    open spec fn view(&self) -> FsPrimitiveView {
        match self {
            FsPrimitive::CreateDir(p) => FsPrimitiveView::CreateDir(p@),
            FsPrimitive::WriteFile(p, c) => FsPrimitiveView::WriteFile(p@, c@),
            FsPrimitive::ListDir(p) => FsPrimitiveView::ListDir(p@),
            FsPrimitive::ReadFile(p) => FsPrimitiveView::ReadFile(p@),
            FsPrimitive::RemoveDirAll(p) => FsPrimitiveView::RemoveDirAll(p@),
            FsPrimitive::RemoveFile(p) => FsPrimitiveView::RemoveFile(p@),
            FsPrimitive::Rename(from, to) => FsPrimitiveView::Rename(from@, to@),
        }
    }
}

/// What one primitive call produced when it succeeded.
#[derive(Debug)]
pub enum FsPrimitiveOutput {
    /// The call succeeded and carries no payload.
    Unit,
    /// The entry paths that listing a directory produced.
    Entries(Vec<String>),
    /// The raw contents that reading a file produced.
    Contents(Vec<u8>),
}

/// The mathematical image of a primitive call's output.
pub enum FsOutputView {
    Unit,
    Entries(Seq<Seq<char>>),
    Contents(Seq<u8>),
}

impl View for FsPrimitiveOutput {
    type V = FsOutputView;

    open spec fn view(&self) -> FsOutputView {
        match self {
            FsPrimitiveOutput::Unit => FsOutputView::Unit,
            FsPrimitiveOutput::Entries(entries) => FsOutputView::Entries(path_views(entries@)),
            FsPrimitiveOutput::Contents(contents) => FsOutputView::Contents(contents@),
        }
    }
}

/// Error reported by the runtime dispatcher itself: the envelope handed to
/// it already carries a ready response, so there is nothing to perform.
#[derive(Clone, Copy, Debug, PartialEq, Eq, Structural)]
pub enum RuntimeError {
    /// The envelope was not a pending request.
    InvalidInput,
}

/// The views of a sequence of primitive calls, in order.
pub open spec fn plan_views(s: Seq<FsPrimitive>) -> Seq<FsPrimitiveView> {
    s.map_values(|p: FsPrimitive| p@)
}

/// The views of a sequence of primitive outputs, in order.
pub open spec fn output_views(s: Seq<FsPrimitiveOutput>) -> Seq<FsOutputView> {
    s.map_values(|o: FsPrimitiveOutput| o@)
}

/// The primitive calls that a pending request asks for, one per element of
/// its input, in the input's order. A ready response asks for none.
pub open spec fn plan_of(req: FsIo) -> Seq<FsPrimitiveView> {
    match req {
        FsIo::CreateDir(Err(p)) => seq![FsPrimitiveView::CreateDir(p@)],
        FsIo::CreateDirs(Err(ps)) => ps@.map_values(|p: String| FsPrimitiveView::CreateDir(p@)),
        FsIo::CreateFile(Err(pc)) => seq![FsPrimitiveView::WriteFile(pc.0@, pc.1@)],
        FsIo::CreateFiles(Err(es)) => es@.map_values(
            |e: (String, Vec<u8>)| FsPrimitiveView::WriteFile(e.0@, e.1@),
        ),
        FsIo::ReadDir(Err(p)) => seq![FsPrimitiveView::ListDir(p@)],
        FsIo::ReadFile(Err(p)) => seq![FsPrimitiveView::ReadFile(p@)],
        FsIo::ReadFiles(Err(ps)) => ps@.map_values(|p: String| FsPrimitiveView::ReadFile(p@)),
        FsIo::RemoveDir(Err(p)) => seq![FsPrimitiveView::RemoveDirAll(p@)],
        FsIo::RemoveDirs(Err(ps)) => ps@.map_values(
            |p: String| FsPrimitiveView::RemoveDirAll(p@),
        ),
        FsIo::RemoveFile(Err(p)) => seq![FsPrimitiveView::RemoveFile(p@)],
        FsIo::RemoveFiles(Err(ps)) => ps@.map_values(|p: String| FsPrimitiveView::RemoveFile(p@)),
        FsIo::Rename(Err(moves)) => moves@.map_values(
            |m: (String, String)| FsPrimitiveView::Rename(m.0@, m.1@),
        ),
        _ => Seq::empty(),
    }
}

/// The output shape that a primitive call owes: listing yields entries,
/// reading yields contents, everything else yields no payload.
pub open spec fn step_output_matches(step: FsPrimitiveView, out: FsOutputView) -> bool {
    match step {
        FsPrimitiveView::ListDir(_) => out is Entries,
        FsPrimitiveView::ReadFile(_) => out is Contents,
        _ => out is Unit,
    }
}

/// Entry `i` of a batch-read response pairs the `i`-th requested path with
/// the contents that were read for it.
pub open spec fn read_pair_ok(
    ps: Seq<String>,
    outs: Seq<FsOutputView>,
    pairs: Seq<(String, Vec<u8>)>,
    i: int,
) -> bool {
    &&& pairs[i].0@ == ps[i]@
    &&& outs[i] matches FsOutputView::Contents(cv) && pairs[i].1@ == cv
}

/// The ready-response envelope `r` is the one that a request `req` owes once
/// its primitive calls produced the outputs `outs`: the same kind, in
/// response direction, with the outputs as its payload.
pub open spec fn response_ok(req: FsIo, outs: Seq<FsOutputView>, r: FsIo) -> bool {
    match req {
        FsIo::CreateDir(_) => r == FsIo::CreateDir(Ok(())),
        FsIo::CreateDirs(_) => r == FsIo::CreateDirs(Ok(())),
        FsIo::CreateFile(_) => r == FsIo::CreateFile(Ok(())),
        FsIo::CreateFiles(_) => r == FsIo::CreateFiles(Ok(())),
        FsIo::ReadDir(_) => r matches FsIo::ReadDir(Ok(entries)) && outs[0]
            matches FsOutputView::Entries(es) && path_views(entries@) == es,
        FsIo::ReadFile(_) => r matches FsIo::ReadFile(Ok(contents)) && outs[0]
            matches FsOutputView::Contents(cv) && contents@ == cv,
        FsIo::ReadFiles(input) => match input {
            Err(ps) => r matches FsIo::ReadFiles(Ok(pairs)) && pairs@.len() == ps@.len() && (forall|
                i: int,
            |
                0 <= i < ps@.len() ==> read_pair_ok(ps@, outs, pairs@, i)),
            Ok(_) => false,
        },
        FsIo::RemoveDir(_) => r == FsIo::RemoveDir(Ok(())),
        FsIo::RemoveDirs(_) => r == FsIo::RemoveDirs(Ok(())),
        FsIo::RemoveFile(_) => r == FsIo::RemoveFile(Ok(())),
        FsIo::RemoveFiles(_) => r == FsIo::RemoveFiles(Ok(())),
        FsIo::Rename(_) => r == FsIo::Rename(Ok(())),
    }
}

/// Lays out the primitive calls that a pending-request envelope asks for,
/// one per element of its input, in the input's order. An envelope that
/// already carries a ready response is invalid input.
pub fn handle(request: &FsIo) -> (r: Result<Vec<FsPrimitive>, RuntimeError>)
    ensures
        request.is_request() ==> (r matches Ok(plan) && plan_views(plan@) == plan_of(*request)),
        !request.is_request() ==> (r matches Err(e) && e == RuntimeError::InvalidInput),
{
    if !request.carries_request() {
        return Err(RuntimeError::InvalidInput);
    }
    let mut plan: Vec<FsPrimitive> = Vec::new();
    match request {
        FsIo::CreateDir(Err(p)) => {
            plan.push(FsPrimitive::CreateDir(p.clone()));
        },
        FsIo::CreateDirs(Err(ps)) => {
            let mut k: usize = 0;
            while k < ps.len()
                invariant
                    k <= ps@.len(),
                    plan@.len() == k,
                    forall|i: int|
                        0 <= i < k ==> plan@[i]@ == FsPrimitiveView::CreateDir(ps@[i]@),
                decreases ps@.len() - k,
            {
                plan.push(FsPrimitive::CreateDir(ps[k].clone()));
                k += 1;
            }
        },
        FsIo::CreateFile(Err((p, c))) => {
            plan.push(FsPrimitive::WriteFile(p.clone(), c.clone()));
        },
        FsIo::CreateFiles(Err(es)) => {
            let mut k: usize = 0;
            while k < es.len()
                invariant
                    k <= es@.len(),
                    plan@.len() == k,
                    forall|i: int|
                        0 <= i < k ==> plan@[i]@ == FsPrimitiveView::WriteFile(
                            es@[i].0@,
                            es@[i].1@,
                        ),
                decreases es@.len() - k,
            {
                plan.push(FsPrimitive::WriteFile(es[k].0.clone(), es[k].1.clone()));
                k += 1;
            }
        },
        FsIo::ReadDir(Err(p)) => {
            plan.push(FsPrimitive::ListDir(p.clone()));
        },
        FsIo::ReadFile(Err(p)) => {
            plan.push(FsPrimitive::ReadFile(p.clone()));
        },
        FsIo::ReadFiles(Err(ps)) => {
            let mut k: usize = 0;
            while k < ps.len()
                invariant
                    k <= ps@.len(),
                    plan@.len() == k,
                    forall|i: int| 0 <= i < k ==> plan@[i]@ == FsPrimitiveView::ReadFile(ps@[i]@),
                decreases ps@.len() - k,
            {
                plan.push(FsPrimitive::ReadFile(ps[k].clone()));
                k += 1;
            }
        },
        FsIo::RemoveDir(Err(p)) => {
            plan.push(FsPrimitive::RemoveDirAll(p.clone()));
        },
        FsIo::RemoveDirs(Err(ps)) => {
            let mut k: usize = 0;
            while k < ps.len()
                invariant
                    k <= ps@.len(),
                    plan@.len() == k,
                    forall|i: int|
                        0 <= i < k ==> plan@[i]@ == FsPrimitiveView::RemoveDirAll(ps@[i]@),
                decreases ps@.len() - k,
            {
                plan.push(FsPrimitive::RemoveDirAll(ps[k].clone()));
                k += 1;
            }
        },
        FsIo::RemoveFile(Err(p)) => {
            plan.push(FsPrimitive::RemoveFile(p.clone()));
        },
        FsIo::RemoveFiles(Err(ps)) => {
            let mut k: usize = 0;
            while k < ps.len()
                invariant
                    k <= ps@.len(),
                    plan@.len() == k,
                    forall|i: int|
                        0 <= i < k ==> plan@[i]@ == FsPrimitiveView::RemoveFile(ps@[i]@),
                decreases ps@.len() - k,
            {
                plan.push(FsPrimitive::RemoveFile(ps[k].clone()));
                k += 1;
            }
        },
        FsIo::Rename(Err(moves)) => {
            let mut k: usize = 0;
            while k < moves.len()
                invariant
                    k <= moves@.len(),
                    plan@.len() == k,
                    forall|i: int|
                        0 <= i < k ==> plan@[i]@ == FsPrimitiveView::Rename(
                            moves@[i].0@,
                            moves@[i].1@,
                        ),
                decreases moves@.len() - k,
            {
                plan.push(FsPrimitive::Rename(moves[k].0.clone(), moves[k].1.clone()));
                k += 1;
            }
        },
        _ => {
            return unreached();
        },
    }
    proof {
        assert(plan_views(plan@) =~= plan_of(*request));
    }
    Ok(plan)
}

/// Unwraps the entry paths that a directory listing produced.
fn take_entries(out: FsPrimitiveOutput) -> (entries: Vec<String>)
    requires
        out@ is Entries,
    ensures
        out@ == FsOutputView::Entries(path_views(entries@)),
{
    match out {
        FsPrimitiveOutput::Entries(entries) => entries,
        _ => unreached(),
    }
}

/// Unwraps the raw contents that a file read produced.
fn take_contents(out: FsPrimitiveOutput) -> (contents: Vec<u8>)
    requires
        out@ is Contents,
    ensures
        out@ == FsOutputView::Contents(contents@),
{
    match out {
        FsPrimitiveOutput::Contents(contents) => contents,
        _ => unreached(),
    }
}

/// Assembles the ready-response envelope of a pending request out of the
/// outputs its primitive calls produced, pairing batch-read outputs with the
/// requested paths in order.
pub fn finish(request: FsIo, outputs: Vec<FsPrimitiveOutput>) -> (r: FsIo)
    requires
        request.is_request(),
        outputs@.len() == plan_of(request).len(),
        forall|i: int|
            0 <= i < outputs@.len() ==> step_output_matches(
                plan_of(request)[i],
                #[trigger] outputs@[i]@,
            ),
    ensures
        r.is_response(),
        r.kind() == request.kind(),
        response_ok(request, output_views(outputs@), r),
{
    let ghost req = request;
    match request {
        FsIo::CreateDir(_) => FsIo::CreateDir(Ok(())),
        FsIo::CreateDirs(_) => FsIo::CreateDirs(Ok(())),
        FsIo::CreateFile(_) => FsIo::CreateFile(Ok(())),
        FsIo::CreateFiles(_) => FsIo::CreateFiles(Ok(())),
        FsIo::ReadDir(_) => {
            proof {
                assert(outputs@.len() == 1);
                assert(step_output_matches(plan_of(req)[0], outputs@[0]@));
            }
            let mut outs = outputs;
            let out = match outs.pop() {
                Some(out) => out,
                None => unreached(),
            };
            let entries = take_entries(out);
            FsIo::ReadDir(Ok(entries))
        },
        FsIo::ReadFile(_) => {
            proof {
                assert(outputs@.len() == 1);
                assert(step_output_matches(plan_of(req)[0], outputs@[0]@));
            }
            let mut outs = outputs;
            let out = match outs.pop() {
                Some(out) => out,
                None => unreached(),
            };
            let contents = take_contents(out);
            FsIo::ReadFile(Ok(contents))
        },
        FsIo::ReadFiles(input) => match input {
            Err(ps) => {
                let ghost whole = outputs@;
                let mut outs = outputs;
                let mut pairs: Vec<(String, Vec<u8>)> = Vec::new();
                let mut k: usize = 0;
                while k < ps.len()
                    invariant
                        k <= ps@.len(),
                        ps@.len() == whole.len(),
                        outs@ == whole.skip(k as int),
                        pairs@.len() == k,
                        forall|i: int|
                            0 <= i < whole.len() ==> step_output_matches(
                                FsPrimitiveView::ReadFile(ps@[i]@),
                                #[trigger] whole[i]@,
                            ),
                        forall|i: int|
                            0 <= i < k ==> read_pair_ok(ps@, output_views(whole), pairs@, i),
                    decreases ps@.len() - k,
                {
                    let p = ps[k].clone();
                    let ghost pg = p;
                    let out = outs.remove(0);
                    let ghost outg = out;
                    proof {
                        assert(out == whole[k as int]);
                        assert(outs@ =~= whole.skip(k as int + 1));
                        assert(step_output_matches(FsPrimitiveView::ReadFile(ps@[k as int]@), out@));
                    }
                    let c = take_contents(out);
                    let ghost cg = c;
                    let ghost built = pairs@;
                    pairs.push((p, c));
                    proof {
                        assert(output_views(whole)[k as int] == FsOutputView::Contents(cg@));
                        assert(pairs@[k as int] == (pg, cg));
                        assert forall|i: int| 0 <= i < k + 1 implies read_pair_ok(
                            ps@,
                            output_views(whole),
                            pairs@,
                            i,
                        ) by {
                            if i < k {
                                assert(read_pair_ok(ps@, output_views(whole), built, i));
                                assert(pairs@[i] == built[i]);
                            }
                        }
                    }
                    k += 1;
                }
                FsIo::ReadFiles(Ok(pairs))
            },
            Ok(_) => unreached(),
        },
        FsIo::RemoveDir(_) => FsIo::RemoveDir(Ok(())),
        FsIo::RemoveDirs(_) => FsIo::RemoveDirs(Ok(())),
        FsIo::RemoveFile(_) => FsIo::RemoveFile(Ok(())),
        FsIo::RemoveFiles(_) => FsIo::RemoveFiles(Ok(())),
        FsIo::Rename(_) => FsIo::Rename(Ok(())),
    }
}

/// Round-trip law: the first resume of a fresh coroutine emits the pending
/// request; once a runtime has assembled the matching response, the second
/// resume terminates with the success outcome.
pub proof fn lemma_round_trip_create_dir(path: String, outs: Seq<FsOutputView>, resp: FsIo)
    requires
        response_ok(FsIo::CreateDir(Err(path)), outs, resp),
    ensures
        ({
            let (s1, r1) = CreateDir::transition(Some(path), None);
            &&& r1 == FsResult::<()>::Io(FsIo::CreateDir(Err(path)))
            &&& CreateDir::transition(s1, Some(resp)).1 == FsResult::<()>::Done(())
        }),
{
}

/// Round-trip law: the first resume of a fresh coroutine emits the pending
/// request; once a runtime has assembled the matching response, the second
/// resume terminates with the success outcome.
pub proof fn lemma_round_trip_create_dirs(paths: Vec<String>, outs: Seq<FsOutputView>, resp: FsIo)
    requires
        response_ok(FsIo::CreateDirs(Err(paths)), outs, resp),
    ensures
        ({
            let (s1, r1) = CreateDirs::transition(Some(paths), None);
            &&& r1 == FsResult::<()>::Io(FsIo::CreateDirs(Err(paths)))
            &&& CreateDirs::transition(s1, Some(resp)).1 == FsResult::<()>::Done(())
        }),
{
}

/// Round-trip law: the first resume of a fresh coroutine emits the pending
/// request; once a runtime has assembled the matching response, the second
/// resume terminates with the success outcome.
pub proof fn lemma_round_trip_create_file(
    contents: (String, Vec<u8>),
    outs: Seq<FsOutputView>,
    resp: FsIo,
)
    requires
        response_ok(FsIo::CreateFile(Err(contents)), outs, resp),
    ensures
        ({
            let (s1, r1) = CreateFile::transition(Some(contents), None);
            &&& r1 == FsResult::<()>::Io(FsIo::CreateFile(Err(contents)))
            &&& CreateFile::transition(s1, Some(resp)).1 == FsResult::<()>::Done(())
        }),
{
}

/// Round-trip law: the first resume of a fresh coroutine emits the pending
/// request; once a runtime has assembled the matching response, the second
/// resume terminates with the success outcome.
pub proof fn lemma_round_trip_create_files(
    contents: Vec<(String, Vec<u8>)>,
    outs: Seq<FsOutputView>,
    resp: FsIo,
)
    requires
        response_ok(FsIo::CreateFiles(Err(contents)), outs, resp),
    ensures
        ({
            let (s1, r1) = CreateFiles::transition(Some(contents), None);
            &&& r1 == FsResult::<()>::Io(FsIo::CreateFiles(Err(contents)))
            &&& CreateFiles::transition(s1, Some(resp)).1 == FsResult::<()>::Done(())
        }),
{
}

/// Round-trip law: the first resume of a fresh coroutine emits the pending
/// request; once a runtime has assembled the matching response, the second
/// resume terminates with exactly the listing the runtime produced.
pub proof fn lemma_round_trip_read_dir(path: String, outs: Seq<FsOutputView>, resp: FsIo)
    requires
        response_ok(FsIo::ReadDir(Err(path)), outs, resp),
    ensures
        ({
            let (s1, r1) = ReadDir::transition(Some(path), None);
            &&& r1 == FsResult::<Vec<String>>::Io(FsIo::ReadDir(Err(path)))
            &&& (ReadDir::transition(s1, Some(resp)).1 matches FsResult::Done(entries) && outs[0]
                matches FsOutputView::Entries(es) && path_views(entries@) == es)
        }),
{
}

/// Round-trip law: the first resume of a fresh coroutine emits the pending
/// request; once a runtime has assembled the matching response, the second
/// resume terminates with exactly the contents the runtime read.
pub proof fn lemma_round_trip_read_file(path: String, outs: Seq<FsOutputView>, resp: FsIo)
    requires
        response_ok(FsIo::ReadFile(Err(path)), outs, resp),
    ensures
        ({
            let (s1, r1) = ReadFile::transition(Some(path), None);
            &&& r1 == FsResult::<Vec<u8>>::Io(FsIo::ReadFile(Err(path)))
            &&& (ReadFile::transition(s1, Some(resp)).1 matches FsResult::Done(contents) && outs[0]
                matches FsOutputView::Contents(cv) && contents@ == cv)
        }),
{
}

/// Round-trip law: the first resume of a fresh coroutine emits the pending
/// request; once a runtime has assembled the matching response, the second
/// resume terminates with a mapping that pairs each requested path with the
/// contents the runtime read for it.
pub proof fn lemma_round_trip_read_files(paths: Vec<String>, outs: Seq<FsOutputView>, resp: FsIo)
    requires
        response_ok(FsIo::ReadFiles(Err(paths)), outs, resp),
    ensures
        ({
            let (s1, r1) = ReadFiles::transition(Some(paths), None);
            &&& r1 == FsResult::<Vec<(String, Vec<u8>)>>::Io(FsIo::ReadFiles(Err(paths)))
            &&& (ReadFiles::transition(s1, Some(resp)).1 matches FsResult::Done(pairs) && pairs@.len()
                == paths@.len() && (forall|i: int|
                0 <= i < paths@.len() ==> read_pair_ok(paths@, outs, pairs@, i)))
        }),
{
}

/// Round-trip law: the first resume of a fresh coroutine emits the pending
/// request; once a runtime has assembled the matching response, the second
/// resume terminates with the success outcome.
pub proof fn lemma_round_trip_remove_dir(path: String, outs: Seq<FsOutputView>, resp: FsIo)
    requires
        response_ok(FsIo::RemoveDir(Err(path)), outs, resp),
    ensures
        ({
            let (s1, r1) = RemoveDir::transition(Some(path), None);
            &&& r1 == FsResult::<()>::Io(FsIo::RemoveDir(Err(path)))
            &&& RemoveDir::transition(s1, Some(resp)).1 == FsResult::<()>::Done(())
        }),
{
}

/// Round-trip law: the first resume of a fresh coroutine emits the pending
/// request; once a runtime has assembled the matching response, the second
/// resume terminates with the success outcome.
pub proof fn lemma_round_trip_remove_dirs(paths: Vec<String>, outs: Seq<FsOutputView>, resp: FsIo)
    requires
        response_ok(FsIo::RemoveDirs(Err(paths)), outs, resp),
    ensures
        ({
            let (s1, r1) = RemoveDirs::transition(Some(paths), None);
            &&& r1 == FsResult::<()>::Io(FsIo::RemoveDirs(Err(paths)))
            &&& RemoveDirs::transition(s1, Some(resp)).1 == FsResult::<()>::Done(())
        }),
{
}

/// Round-trip law: the first resume of a fresh coroutine emits the pending
/// request; once a runtime has assembled the matching response, the second
/// resume terminates with the success outcome.
pub proof fn lemma_round_trip_remove_file(path: String, outs: Seq<FsOutputView>, resp: FsIo)
    requires
        response_ok(FsIo::RemoveFile(Err(path)), outs, resp),
    ensures
        ({
            let (s1, r1) = RemoveFile::transition(Some(path), None);
            &&& r1 == FsResult::<()>::Io(FsIo::RemoveFile(Err(path)))
            &&& RemoveFile::transition(s1, Some(resp)).1 == FsResult::<()>::Done(())
        }),
{
}

/// Round-trip law: the first resume of a fresh coroutine emits the pending
/// request; once a runtime has assembled the matching response, the second
/// resume terminates with the success outcome.
pub proof fn lemma_round_trip_remove_files(paths: Vec<String>, outs: Seq<FsOutputView>, resp: FsIo)
    requires
        response_ok(FsIo::RemoveFiles(Err(paths)), outs, resp),
    ensures
        ({
            let (s1, r1) = RemoveFiles::transition(Some(paths), None);
            &&& r1 == FsResult::<()>::Io(FsIo::RemoveFiles(Err(paths)))
            &&& RemoveFiles::transition(s1, Some(resp)).1 == FsResult::<()>::Done(())
        }),
{
}

/// Round-trip law: the first resume of a fresh coroutine emits the pending
/// request; once a runtime has assembled the matching response, the second
/// resume terminates with the success outcome.
pub proof fn lemma_round_trip_rename(
    sources: Vec<(String, String)>,
    outs: Seq<FsOutputView>,
    resp: FsIo,
)
    requires
        response_ok(FsIo::Rename(Err(sources)), outs, resp),
    ensures
        ({
            let (s1, r1) = Rename::transition(Some(sources), None);
            &&& r1 == FsResult::<()>::Io(FsIo::Rename(Err(sources)))
            &&& Rename::transition(s1, Some(resp)).1 == FsResult::<()>::Done(())
        }),
{
}

/// An empty batch still takes exactly one round trip and succeeds: its plan
/// holds no primitive call, and the response it owes is the plain success.
pub proof fn lemma_empty_batch_create_dirs(paths: Vec<String>, resp: FsIo)
    requires
        paths@.len() == 0,
        response_ok(FsIo::CreateDirs(Err(paths)), Seq::empty(), resp),
    ensures
        plan_of(FsIo::CreateDirs(Err(paths))).len() == 0,
        ({
            let (s1, r1) = CreateDirs::transition(Some(paths), None);
            &&& r1 == FsResult::<()>::Io(FsIo::CreateDirs(Err(paths)))
            &&& CreateDirs::transition(s1, Some(resp)).1 == FsResult::<()>::Done(())
        }),
{
}

/// An empty batch still takes exactly one round trip and succeeds: its plan
/// holds no primitive call, and the response it owes is the plain success.
pub proof fn lemma_empty_batch_create_files(contents: Vec<(String, Vec<u8>)>, resp: FsIo)
    requires
        contents@.len() == 0,
        response_ok(FsIo::CreateFiles(Err(contents)), Seq::empty(), resp),
    ensures
        plan_of(FsIo::CreateFiles(Err(contents))).len() == 0,
        ({
            let (s1, r1) = CreateFiles::transition(Some(contents), None);
            &&& r1 == FsResult::<()>::Io(FsIo::CreateFiles(Err(contents)))
            &&& CreateFiles::transition(s1, Some(resp)).1 == FsResult::<()>::Done(())
        }),
{
}

/// An empty batch still takes exactly one round trip and succeeds: its plan
/// holds no primitive call, and the response it owes carries the empty
/// mapping as the outcome.
pub proof fn lemma_empty_batch_read_files(paths: Vec<String>, resp: FsIo)
    requires
        paths@.len() == 0,
        response_ok(FsIo::ReadFiles(Err(paths)), Seq::empty(), resp),
    ensures
        plan_of(FsIo::ReadFiles(Err(paths))).len() == 0,
        ({
            let (s1, r1) = ReadFiles::transition(Some(paths), None);
            &&& r1 == FsResult::<Vec<(String, Vec<u8>)>>::Io(FsIo::ReadFiles(Err(paths)))
            &&& (ReadFiles::transition(s1, Some(resp)).1 matches FsResult::Done(pairs)
                && pairs@.len() == 0)
        }),
{
}

/// An empty batch still takes exactly one round trip and succeeds: its plan
/// holds no primitive call, and the response it owes is the plain success.
pub proof fn lemma_empty_batch_remove_dirs(paths: Vec<String>, resp: FsIo)
    requires
        paths@.len() == 0,
        response_ok(FsIo::RemoveDirs(Err(paths)), Seq::empty(), resp),
    ensures
        plan_of(FsIo::RemoveDirs(Err(paths))).len() == 0,
        ({
            let (s1, r1) = RemoveDirs::transition(Some(paths), None);
            &&& r1 == FsResult::<()>::Io(FsIo::RemoveDirs(Err(paths)))
            &&& RemoveDirs::transition(s1, Some(resp)).1 == FsResult::<()>::Done(())
        }),
{
}

/// An empty batch still takes exactly one round trip and succeeds: its plan
/// holds no primitive call, and the response it owes is the plain success.
pub proof fn lemma_empty_batch_remove_files(paths: Vec<String>, resp: FsIo)
    requires
        paths@.len() == 0,
        response_ok(FsIo::RemoveFiles(Err(paths)), Seq::empty(), resp),
    ensures
        plan_of(FsIo::RemoveFiles(Err(paths))).len() == 0,
        ({
            let (s1, r1) = RemoveFiles::transition(Some(paths), None);
            &&& r1 == FsResult::<()>::Io(FsIo::RemoveFiles(Err(paths)))
            &&& RemoveFiles::transition(s1, Some(resp)).1 == FsResult::<()>::Done(())
        }),
{
}

} // verus!

