//! End-to-end protocol scenarios, driven against an in-memory filesystem
//! model that performs the primitive calls the runtime plans.

use io_fs::coroutines::create_dir::CreateDir;
use io_fs::coroutines::create_dirs::CreateDirs;
use io_fs::coroutines::create_file::CreateFile;
use io_fs::coroutines::create_files::CreateFiles;
use io_fs::coroutines::read_dir::ReadDir;
use io_fs::coroutines::read_file::ReadFile;
use io_fs::coroutines::read_files::ReadFiles;
use io_fs::coroutines::remove_dir::RemoveDir;
use io_fs::coroutines::remove_dirs::RemoveDirs;
use io_fs::coroutines::remove_file::RemoveFile;
use io_fs::coroutines::remove_files::RemoveFiles;
use io_fs::coroutines::rename::Rename;
use io_fs::error::FsResult;
use io_fs::io::FsIo;
use io_fs::runtimes::{finish, handle, FsPrimitive, FsPrimitiveOutput};

struct ModelFs {
    dirs: Vec<String>,
    files: Vec<(String, Vec<u8>)>,
}

fn s(x: &str) -> String {
    x.to_string()
}

fn new_fs() -> ModelFs {
    // the root directory is the empty path and always exists
    ModelFs { dirs: vec![String::new()], files: vec![] }
}

fn parent(p: &str) -> String {
    match p.rfind('/') {
        Some(i) => p[..i].to_string(),
        None => String::new(),
    }
}

fn is_dir(fs: &ModelFs, p: &str) -> bool {
    fs.dirs.iter().any(|d| d == p)
}

fn is_file(fs: &ModelFs, p: &str) -> bool {
    fs.files.iter().any(|(q, _)| q == p)
}

fn perform(fs: &mut ModelFs, step: &FsPrimitive) -> Result<FsPrimitiveOutput, String> {
    match step {
        FsPrimitive::CreateDir(p) => {
            if is_dir(fs, p) || is_file(fs, p) {
                return Err(format!("{p}: already exists"));
            }
            if !is_dir(fs, &parent(p)) {
                return Err(format!("{p}: no parent directory"));
            }
            fs.dirs.push(p.clone());
            Ok(FsPrimitiveOutput::Unit)
        }
        FsPrimitive::WriteFile(p, c) => {
            if is_dir(fs, p) {
                return Err(format!("{p}: is a directory"));
            }
            if !is_dir(fs, &parent(p)) {
                return Err(format!("{p}: no parent directory"));
            }
            for entry in fs.files.iter_mut() {
                if entry.0 == *p {
                    entry.1 = c.clone();
                    return Ok(FsPrimitiveOutput::Unit);
                }
            }
            fs.files.push((p.clone(), c.clone()));
            Ok(FsPrimitiveOutput::Unit)
        }
        FsPrimitive::ListDir(p) => {
            if !is_dir(fs, p) {
                return Err(format!("{p}: not found"));
            }
            let mut entries: Vec<String> = Vec::new();
            for d in &fs.dirs {
                if !d.is_empty() && parent(d) == *p {
                    entries.push(d.clone());
                }
            }
            for (f, _) in &fs.files {
                if parent(f) == *p {
                    entries.push(f.clone());
                }
            }
            Ok(FsPrimitiveOutput::Entries(entries))
        }
        FsPrimitive::ReadFile(p) => {
            for (f, c) in &fs.files {
                if f == p {
                    return Ok(FsPrimitiveOutput::Contents(c.clone()));
                }
            }
            Err(format!("{p}: not found"))
        }
        FsPrimitive::RemoveDirAll(p) => {
            if !is_dir(fs, p) {
                return Err(format!("{p}: not found"));
            }
            let prefix = format!("{p}/");
            fs.dirs.retain(|d| d != p && !d.starts_with(&prefix));
            fs.files.retain(|(f, _)| f != p && !f.starts_with(&prefix));
            Ok(FsPrimitiveOutput::Unit)
        }
        FsPrimitive::RemoveFile(p) => {
            if !is_file(fs, p) {
                return Err(format!("{p}: not found"));
            }
            fs.files.retain(|(f, _)| f != p);
            Ok(FsPrimitiveOutput::Unit)
        }
        FsPrimitive::Rename(from, to) => {
            if !is_dir(fs, &parent(to)) {
                return Err(format!("{to}: no parent directory"));
            }
            if is_file(fs, from) {
                let c = fs
                    .files
                    .iter()
                    .find(|(f, _)| f == from)
                    .map(|(_, c)| c.clone())
                    .unwrap();
                fs.files.retain(|(f, _)| f != from && f != to);
                fs.files.push((to.clone(), c));
                Ok(FsPrimitiveOutput::Unit)
            } else if is_dir(fs, from) {
                let prefix = format!("{from}/");
                for d in fs.dirs.iter_mut() {
                    if d == from {
                        *d = to.clone();
                    } else if d.starts_with(&prefix) {
                        *d = format!("{to}/{}", &d[prefix.len()..]);
                    }
                }
                for e in fs.files.iter_mut() {
                    if e.0.starts_with(&prefix) {
                        e.0 = format!("{to}/{}", &e.0[prefix.len()..]);
                    }
                }
                Ok(FsPrimitiveOutput::Unit)
            } else {
                Err(format!("{from}: not found"))
            }
        }
    }
}

/// Plans the request, performs each primitive call in order stopping at the
/// first failure, and assembles the response. A failed call hands the
/// pending request back untouched, so the caller can re-dispatch it.
fn dispatch(fs: &mut ModelFs, input: FsIo) -> Result<FsIo, (FsIo, String)> {
    let plan = match handle(&input) {
        Ok(plan) => plan,
        Err(_) => return Err((input, s("invalid input"))),
    };
    let mut outputs = Vec::new();
    for step in &plan {
        match perform(fs, step) {
            Ok(out) => outputs.push(out),
            Err(err) => return Err((input, err)),
        }
    }
    Ok(finish(input, outputs))
}

fn do_create_dir(fs: &mut ModelFs, path: &str) {
    let mut arg = None;
    let mut coroutine = CreateDir::new(s(path));
    loop {
        match coroutine.resume(arg) {
            FsResult::Done(()) => break,
            FsResult::Failed(err) => panic!("{err:?}"),
            FsResult::Io(io) => arg = Some(dispatch(fs, io).unwrap()),
        }
    }
}

fn do_create_dirs(fs: &mut ModelFs, paths: Vec<String>) {
    let mut arg = None;
    let mut coroutine = CreateDirs::new(paths);
    loop {
        match coroutine.resume(arg) {
            FsResult::Done(()) => break,
            FsResult::Failed(err) => panic!("{err:?}"),
            FsResult::Io(io) => arg = Some(dispatch(fs, io).unwrap()),
        }
    }
}

fn do_create_file(fs: &mut ModelFs, path: &str, contents: &[u8]) {
    let mut arg = None;
    let mut coroutine = CreateFile::new(s(path), contents.to_vec());
    loop {
        match coroutine.resume(arg) {
            FsResult::Done(()) => break,
            FsResult::Failed(err) => panic!("{err:?}"),
            FsResult::Io(io) => arg = Some(dispatch(fs, io).unwrap()),
        }
    }
}

fn do_create_files(fs: &mut ModelFs, contents: Vec<(String, Vec<u8>)>) {
    let mut arg = None;
    let mut coroutine = CreateFiles::new(contents);
    loop {
        match coroutine.resume(arg) {
            FsResult::Done(()) => break,
            FsResult::Failed(err) => panic!("{err:?}"),
            FsResult::Io(io) => arg = Some(dispatch(fs, io).unwrap()),
        }
    }
}

fn do_read_dir(fs: &mut ModelFs, path: &str) -> Vec<String> {
    let mut arg = None;
    let mut coroutine = ReadDir::new(s(path));
    loop {
        match coroutine.resume(arg) {
            FsResult::Done(mut paths) => {
                paths.sort();
                return paths;
            }
            FsResult::Failed(err) => panic!("{err:?}"),
            FsResult::Io(io) => arg = Some(dispatch(fs, io).unwrap()),
        }
    }
}

fn do_read_file(fs: &mut ModelFs, path: &str) -> Vec<u8> {
    let mut arg = None;
    let mut coroutine = ReadFile::new(s(path));
    loop {
        match coroutine.resume(arg) {
            FsResult::Done(contents) => return contents,
            FsResult::Failed(err) => panic!("{err:?}"),
            FsResult::Io(io) => arg = Some(dispatch(fs, io).unwrap()),
        }
    }
}

fn do_read_files(fs: &mut ModelFs, paths: Vec<String>) -> Vec<(String, Vec<u8>)> {
    let mut arg = None;
    let mut coroutine = ReadFiles::new(paths);
    loop {
        match coroutine.resume(arg) {
            FsResult::Done(mut contents) => {
                contents.sort();
                return contents;
            }
            FsResult::Failed(err) => panic!("{err:?}"),
            FsResult::Io(io) => arg = Some(dispatch(fs, io).unwrap()),
        }
    }
}

fn do_remove_dir(fs: &mut ModelFs, path: &str) {
    let mut arg = None;
    let mut coroutine = RemoveDir::new(s(path));
    loop {
        match coroutine.resume(arg) {
            FsResult::Done(()) => break,
            FsResult::Failed(err) => panic!("{err:?}"),
            FsResult::Io(io) => arg = Some(dispatch(fs, io).unwrap()),
        }
    }
}

fn do_remove_dirs(fs: &mut ModelFs, paths: Vec<String>) {
    let mut arg = None;
    let mut coroutine = RemoveDirs::new(paths);
    loop {
        match coroutine.resume(arg) {
            FsResult::Done(()) => break,
            FsResult::Failed(err) => panic!("{err:?}"),
            FsResult::Io(io) => arg = Some(dispatch(fs, io).unwrap()),
        }
    }
}

fn do_remove_file(fs: &mut ModelFs, path: &str) {
    let mut arg = None;
    let mut coroutine = RemoveFile::new(s(path));
    loop {
        match coroutine.resume(arg) {
            FsResult::Done(()) => break,
            FsResult::Failed(err) => panic!("{err:?}"),
            FsResult::Io(io) => arg = Some(dispatch(fs, io).unwrap()),
        }
    }
}

fn do_remove_files(fs: &mut ModelFs, paths: Vec<String>) {
    let mut arg = None;
    let mut coroutine = RemoveFiles::new(paths);
    loop {
        match coroutine.resume(arg) {
            FsResult::Done(()) => break,
            FsResult::Failed(err) => panic!("{err:?}"),
            FsResult::Io(io) => arg = Some(dispatch(fs, io).unwrap()),
        }
    }
}

fn do_rename(fs: &mut ModelFs, moves: Vec<(String, String)>) {
    let mut arg = None;
    let mut coroutine = Rename::new(moves);
    loop {
        match coroutine.resume(arg) {
            FsResult::Done(()) => break,
            FsResult::Failed(err) => panic!("{err:?}"),
            FsResult::Io(io) => arg = Some(dispatch(fs, io).unwrap()),
        }
    }
}

#[test]
fn whole_protocol_scenario() {
    let fs = &mut new_fs();

    // create single directory
    do_create_dir(fs, "dir1");
    assert!(is_dir(fs, "dir1"));

    // create multiple directories
    do_create_dirs(fs, vec![s("dir2"), s("dir3")]);
    assert!(is_dir(fs, "dir2"));
    assert!(is_dir(fs, "dir3"));

    // create single file
    do_create_file(fs, "dir1/file1", b"file1");
    assert!(is_file(fs, "dir1/file1"));

    // create multiple files
    do_create_files(
        fs,
        vec![(s("dir2/file2"), b"file2".to_vec()), (s("dir2/file3"), b"file3".to_vec())],
    );
    assert!(is_file(fs, "dir2/file2"));
    assert!(is_file(fs, "dir2/file3"));

    // read directory
    assert_eq!(do_read_dir(fs, "dir1"), vec![s("dir1/file1")]);
    assert_eq!(do_read_dir(fs, "dir2"), vec![s("dir2/file2"), s("dir2/file3")]);
    assert!(do_read_dir(fs, "dir3").is_empty());

    // read single file
    assert_eq!(do_read_file(fs, "dir1/file1"), b"file1".to_vec());

    // read multiple files
    let contents = do_read_files(fs, vec![s("dir2/file2"), s("dir2/file3")]);
    assert_eq!(
        contents,
        vec![(s("dir2/file2"), b"file2".to_vec()), (s("dir2/file3"), b"file3".to_vec())],
    );

    // rename
    do_rename(fs, vec![(s("dir2/file3"), s("dir3/file3"))]);
    assert_eq!(false, is_file(fs, "dir2/file3"));
    assert_eq!(true, is_file(fs, "dir3/file3"));

    // remove single file
    do_remove_file(fs, "dir3/file3");
    assert_eq!(false, is_file(fs, "dir3/file3"));

    // remove multiple files
    do_remove_files(fs, vec![s("dir1/file1"), s("dir2/file2")]);
    assert_eq!(false, is_file(fs, "dir1/file1"));
    assert_eq!(false, is_file(fs, "dir2/file2"));

    // remove single directory
    do_remove_dir(fs, "dir3");
    assert_eq!(false, is_dir(fs, "dir3"));

    // remove multiple directories
    do_remove_dirs(fs, vec![s("dir1"), s("dir2")]);
    assert_eq!(false, is_dir(fs, "dir1"));
    assert_eq!(false, is_dir(fs, "dir2"));
}

#[test]
fn end_to_end_create_read_remove() {
    let fs = &mut new_fs();
    do_create_dir(fs, "d1");
    do_create_file(fs, "d1/f1", b"file1");
    assert_eq!(do_read_dir(fs, "d1"), vec![s("d1/f1")]);
    assert_eq!(do_read_file(fs, "d1/f1"), b"file1".to_vec());
    do_remove_file(fs, "d1/f1");
    assert!(do_read_dir(fs, "d1").is_empty());
}

#[test]
fn rename_moves_file_with_contents() {
    let fs = &mut new_fs();
    do_create_dirs(fs, vec![s("d2"), s("d3")]);
    do_create_file(fs, "d2/f3", b"three");
    do_rename(fs, vec![(s("d2/f3"), s("d3/f3"))]);
    assert!(!is_file(fs, "d2/f3"));
    assert!(is_file(fs, "d3/f3"));
    assert_eq!(do_read_file(fs, "d3/f3"), b"three".to_vec());
}

#[test]
fn read_dir_on_empty_and_missing_directories() {
    let fs = &mut new_fs();
    do_create_dir(fs, "empty");
    assert!(do_read_dir(fs, "empty").is_empty());

    // a nonexistent directory is an I/O failure reported by the runtime, not
    // a protocol error, and the pending request stays reusable
    let mut coroutine = ReadDir::new(s("missing"));
    let request = match coroutine.resume(None) {
        FsResult::Io(request) => request,
        other => panic!("expected a pending request, got {other:?}"),
    };
    let (request, err) = dispatch(fs, request).unwrap_err();
    assert!(err.contains("not found"));

    // once the directory exists, re-dispatching the same request succeeds
    do_create_dir(fs, "missing");
    let response = dispatch(fs, request).unwrap();
    match coroutine.resume(Some(response)) {
        FsResult::Done(entries) => assert!(entries.is_empty()),
        other => panic!("expected the listing outcome, got {other:?}"),
    }
}

#[test]
fn remove_dir_removes_contents() {
    let fs = &mut new_fs();
    do_create_dir(fs, "d");
    do_create_dir(fs, "d/sub");
    do_create_files(
        fs,
        vec![(s("d/a"), b"a".to_vec()), (s("d/sub/b"), b"b".to_vec())],
    );
    do_remove_dir(fs, "d");
    assert!(!is_dir(fs, "d"));
    assert!(!is_dir(fs, "d/sub"));
    assert!(!is_file(fs, "d/a"));
    assert!(!is_file(fs, "d/sub/b"));
}

#[test]
fn batch_stops_at_first_failure() {
    let fs = &mut new_fs();
    // the second path has no parent directory, so the batch fails there and
    // the third directory is never created
    let mut coroutine = CreateDirs::new(vec![s("a"), s("missing/x"), s("b")]);
    let request = match coroutine.resume(None) {
        FsResult::Io(request) => request,
        other => panic!("expected a pending request, got {other:?}"),
    };
    let (_, err) = dispatch(fs, request).unwrap_err();
    assert!(err.contains("no parent directory"));
    assert!(is_dir(fs, "a"));
    assert!(!is_dir(fs, "b"));
}
