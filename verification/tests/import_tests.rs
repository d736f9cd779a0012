use std::collections::{BTreeMap, BTreeSet};

use desktop_supervisor::commands::{
    ensure_within_workspace, get_workspace_path, safe_copy_file, safe_create_dir,
    safe_create_parent_dirs, CopyMoment, Creation, ImportProgress, ImportResult, Probe, WalkStep,
    WorkspaceState, IMPORT_PROGRESS_EVENT,
};
use desktop_supervisor::importer::{
    chrono_now, import_folder, import_id, EntryKind, ImportReply, ImportRequest, ImportSession,
    ScanEntry, SourceKind, Stage,
};
use desktop_supervisor::path::parent_dir;
use desktop_supervisor::vm::HostOs;

const OS: HostOs = HostOs::Linux;

fn parent_of(path: &str) -> Option<String> {
    parent_dir(path, OS)
}

/// A file system in memory: directories, files and links by path.
struct World {
    dirs: BTreeSet<String>,
    files: BTreeMap<String, Vec<u8>>,
    links: BTreeMap<String, String>,
    writes: usize,
}

fn parts(path: &str) -> Vec<String> {
    path.split('/').filter(|p| !p.is_empty() && *p != ".").map(|p| p.to_string()).collect()
}

impl World {
    fn new() -> World {
        World {
            dirs: BTreeSet::new(),
            files: BTreeMap::new(),
            links: BTreeMap::new(),
            writes: 0,
        }
    }

    fn dir(&mut self, path: &str) {
        let mut cur = String::new();
        for part in parts(path) {
            cur = format!("{}/{}", cur, part);
            self.dirs.insert(cur.clone());
        }
    }

    fn file(&mut self, path: &str, bytes: &[u8]) {
        if let Some(parent) = parent_of(path) {
            self.dir(&parent);
        }
        self.files.insert(path.to_string(), bytes.to_vec());
    }

    fn link(&mut self, path: &str, target: &str) {
        if let Some(parent) = parent_of(path) {
            self.dir(&parent);
        }
        self.links.insert(path.to_string(), target.to_string());
    }

    fn canonicalize(&self, path: &str) -> Result<String, String> {
        let mut cur = String::new();
        for part in parts(path) {
            let next = format!("{}/{}", cur, part);
            if let Some(target) = self.links.get(&next) {
                cur = self.canonicalize(target)?;
                if cur == "/" {
                    cur = String::new();
                }
            } else if self.dirs.contains(&next) || self.files.contains_key(&next) {
                cur = next;
            } else {
                return Err(format!("No such file or directory: {}", next));
            }
        }
        if cur.is_empty() {
            Ok("/".to_string())
        } else {
            Ok(cur)
        }
    }

    fn has(&self, path: &str) -> bool {
        self.canonicalize(path).is_ok()
    }

    fn create_dir_all(&mut self, path: &str) -> Result<Option<String>, String> {
        let mut made = None;
        let mut cur = String::new();
        for part in parts(path) {
            let next = format!("{}/{}", cur, part);
            if let Some(target) = self.links.get(&next) {
                cur = self.canonicalize(target)?;
            } else if self.files.contains_key(&next) {
                return Err(format!("Not a directory: {}", next));
            } else {
                if !self.dirs.contains(&next) {
                    self.dirs.insert(next.clone());
                    self.writes += 1;
                    if made.is_none() {
                        made = Some(next.clone());
                    }
                }
                cur = next;
            }
        }
        Ok(made)
    }

    fn copy_no_follow(&mut self, source: &str, dest: &str) -> Result<u64, String> {
        let bytes = match self.files.get(source) {
            Some(bytes) => bytes.clone(),
            None => return Err(format!("Cannot open source {}", source)),
        };
        if self.links.contains_key(dest) {
            return Err(format!("Cannot open destination {} (symlink?)", dest));
        }
        let parent = parent_of(dest).unwrap_or_default();
        let real_parent = self.canonicalize(&parent)?;
        let name = parts(dest).pop().unwrap_or_default();
        let real = if real_parent == "/" {
            format!("/{}", name)
        } else {
            format!("{}/{}", real_parent, name)
        };
        let len = bytes.len() as u64;
        self.files.insert(real, bytes);
        self.writes += 1;
        Ok(len)
    }

    fn scan(&self, source: &str) -> Vec<ScanEntry> {
        let mut found: BTreeMap<String, EntryKind> = BTreeMap::new();
        let below = format!("{}/", source);
        for d in &self.dirs {
            if d == source || d.starts_with(&below) {
                found.insert(d.clone(), EntryKind::Directory);
            }
        }
        for f in self.files.keys() {
            if f.starts_with(&below) {
                found.insert(f.clone(), EntryKind::File);
            }
        }
        for l in self.links.keys() {
            if l.starts_with(&below) {
                found.insert(l.clone(), EntryKind::Symlink);
            }
        }
        found.into_iter().map(|(path, kind)| ScanEntry { path, kind }).collect()
    }

    fn kind(&self, path: &str) -> SourceKind {
        if self.files.contains_key(path) {
            SourceKind::File
        } else if self.dirs.contains(path) {
            SourceKind::Directory
        } else {
            SourceKind::Other
        }
    }
}

fn check_within(world: &World, dest: &str, workspace: &str) -> Result<(), String> {
    let (mut walk, mut step) =
        ensure_within_workspace(dest, workspace, world.canonicalize(workspace), OS);
    loop {
        match step {
            WalkStep::Accept => return Ok(()),
            WalkStep::Reject(e) => return Err(e),
            WalkStep::Probe(path) => {
                let answer = if !world.has(&path) {
                    Probe::Missing
                } else {
                    match world.canonicalize(&path) {
                        Ok(real) => Probe::Resolved(real),
                        Err(e) => Probe::Unresolvable(e),
                    }
                };
                step = walk.advance(answer);
            }
        }
    }
}

fn create_checked(world: &mut World, dir: &str, workspace: &str, parent: bool) -> Result<(), String> {
    let creation = match world.create_dir_all(dir) {
        Err(e) => Creation::Failed(e),
        Ok(made) => Creation::Made {
            workspace: world.canonicalize(workspace),
            created: world.canonicalize(dir),
            made,
        },
    };
    let verdict = if parent {
        safe_create_parent_dirs(dir, creation, OS)
    } else {
        safe_create_dir(dir, creation, OS)
    };
    match verdict {
        Ok(()) => Ok(()),
        Err(failure) => {
            if let Some(made) = failure.remove {
                let below = format!("{}/", made);
                world.dirs.retain(|d| *d != made && !d.starts_with(&below));
            }
            Err(failure.message)
        }
    }
}

struct Run {
    events: Vec<ImportProgress>,
    requests: Vec<String>,
    outcome: Result<ImportResult, String>,
    last: ImportSession,
}

fn answer(world: &mut World, workspace: &str, request: &ImportRequest) -> ImportReply {
    match request {
        ImportRequest::EnsureWithin { dest } => {
            ImportReply::Checked(check_within(world, dest, workspace))
        }
        ImportRequest::CreateParentDirs { dest } => match parent_of(dest) {
            None => ImportReply::Created(Ok(())),
            Some(parent) => ImportReply::Created(create_checked(world, &parent, workspace, true)),
        },
        ImportRequest::CreateDir { dir } => {
            ImportReply::Created(create_checked(world, dir, workspace, false))
        }
        ImportRequest::CopyFile { source, dest } => {
            ImportReply::Copied(world.copy_no_follow(source, dest))
        }
        ImportRequest::Scan { source } => ImportReply::Scanned(world.scan(source)),
        ImportRequest::Exists { path } => ImportReply::Exists(world.has(path)),
        ImportRequest::Finish(_) => unreachable!(),
    }
}

fn name_of(request: &ImportRequest) -> String {
    match request {
        ImportRequest::EnsureWithin { dest } => format!("check {}", dest),
        ImportRequest::CreateParentDirs { dest } => format!("parents {}", dest),
        ImportRequest::CreateDir { dir } => format!("mkdir {}", dir),
        ImportRequest::CopyFile { source, dest } => format!("copy {} {}", source, dest),
        ImportRequest::Scan { source } => format!("scan {}", source),
        ImportRequest::Exists { path } => format!("exists {}", path),
        ImportRequest::Finish(_) => "finish".to_string(),
    }
}

fn run(world: &mut World, source: &str, workspace: &str, sub: Option<&str>) -> Run {
    let kind = world.kind(source);
    let (mut session, mut events, mut request) =
        ImportSession::begin(source, workspace, sub, kind, "42-1000", OS);
    let mut requests = vec![name_of(&request)];
    let mut processed = 0;
    loop {
        if let ImportRequest::Finish(outcome) = request {
            return Run { events, requests, outcome, last: session };
        }
        let reply = answer(world, workspace, &request);
        let (more, next) = session.step(reply);
        assert!(session.processed >= processed);
        processed = session.processed;
        events.extend(more);
        requests.push(name_of(&next));
        request = next;
    }
}

fn phases(events: &[ImportProgress]) -> Vec<String> {
    events.iter().map(|e| e.phase.clone()).collect()
}

fn source_tree() -> World {
    let mut world = World::new();
    world.dir("/ws");
    world.file("/src/a/x", b"abc");
    world.file("/src/a/y/z", b"hello");
    world
}

#[test]
fn plain_folder_import() {
    let mut world = source_tree();
    let run = run(&mut world, "/src/a", "/ws", None);
    let result = run.outcome.unwrap();
    assert_eq!(result.import_id, "42-1000");
    assert_eq!(result.files_copied, 2);
    assert_eq!(result.bytes_copied, 8);
    assert_eq!(result.dest_path, "/ws/a");
    assert!(result.errors.is_empty());
    assert_eq!(world.files.get("/ws/a/x").unwrap(), b"abc");
    assert_eq!(world.files.get("/ws/a/y/z").unwrap(), b"hello");
    assert_eq!(phases(&run.events), vec!["scanning", "copying", "copying", "done"]);
    let done = run.events.last().unwrap();
    assert_eq!((done.processed, done.total), (2, 2));
    assert_eq!(done.current_file, "");
    assert_eq!(run.events[1].current_file, "x");
    assert_eq!(run.events[2].current_file, "y/z");
    assert_eq!((run.events[1].processed, run.events[1].total), (1, 2));
}

#[test]
fn folder_import_asks_in_order() {
    let mut world = source_tree();
    let run = run(&mut world, "/src/a", "/ws", None);
    assert_eq!(
        run.requests,
        vec![
            "check /ws/a",
            "mkdir /ws/a",
            "scan /src/a",
            "check /ws/a/x",
            "parents /ws/a/x",
            "copy /src/a/x /ws/a/x",
            "check /ws/a/y/z",
            "parents /ws/a/y/z",
            "copy /src/a/y/z /ws/a/y/z",
            "exists /ws/a/y",
            "finish",
        ]
    );
}

#[test]
fn import_below_a_subpath() {
    let mut world = source_tree();
    let run = run(&mut world, "/src/a", "/ws", Some("projects//demo/"));
    let result = run.outcome.unwrap();
    assert_eq!(result.dest_path, "/ws/projects/demo/a");
    assert_eq!(world.files.get("/ws/projects/demo/a/y/z").unwrap(), b"hello");
}

#[test]
fn traversal_rejection() {
    let mut world = source_tree();
    let before = world.dirs.clone();
    let run = run(&mut world, "/src/a", "/ws", Some("../escape"));
    let error = run.outcome.err().unwrap();
    assert!(error.contains(".."));
    assert_eq!(error, "Destination subpath must not contain '..': ../escape");
    assert_eq!(world.writes, 0);
    assert_eq!(world.dirs, before);
    assert_eq!(run.requests, vec!["finish"]);
    assert_eq!(phases(&run.events), vec!["error"]);
    assert_eq!(run.events[0].current_file, error);
    assert_eq!((run.events[0].processed, run.events[0].total), (0, 0));
}

#[test]
fn traversal_is_refused_before_a_session_exists() {
    let state = WorkspaceState { workspace_path: "/ws".to_string() };
    let out = import_folder(
        &state,
        true,
        "/src/a",
        true,
        SourceKind::Directory,
        Some("../escape"),
        "1-2",
        OS,
    );
    assert_eq!(out.err().unwrap(), "Destination subpath must not contain '..': ../escape");
}

#[test]
fn import_preconditions_are_checked_in_order() {
    let unset = WorkspaceState { workspace_path: String::new() };
    let out = import_folder(&unset, false, "/src/a", false, SourceKind::Other, None, "1-2", OS);
    assert_eq!(out.err().unwrap(), "Workspace path not configured");
    let state = WorkspaceState { workspace_path: "/ws".to_string() };
    let out = import_folder(&state, false, "/src/a", false, SourceKind::Other, Some(".."), "1-2", OS);
    assert_eq!(out.err().unwrap(), "Workspace directory does not exist: /ws");
    let out = import_folder(&state, true, "/src/a", false, SourceKind::Other, Some(".."), "1-2", OS);
    assert_eq!(out.err().unwrap(), "Source not found: /src/a");
    let out = import_folder(&state, true, "/src/a", true, SourceKind::Directory, None, "1-2", OS);
    let (session, events, request) = out.ok().unwrap();
    assert_eq!(session.stage, Stage::RootCheck);
    assert_eq!(phases(&events), vec!["scanning"]);
    assert_eq!(name_of(&request), "check /ws/a");
}

#[test]
fn symlink_in_source_is_skipped() {
    let mut world = World::new();
    world.dir("/ws");
    world.file("/src/b/real", b"r");
    world.link("/src/b/link", "/etc/passwd");
    world.file("/etc/passwd", b"secret");
    let run = run(&mut world, "/src/b", "/ws", None);
    let result = run.outcome.unwrap();
    assert_eq!(result.files_copied, 1);
    assert_eq!(result.bytes_copied, 1);
    assert!(result.errors.is_empty());
    assert!(!world.has("/ws/b/link"));
    assert!(world.files.contains_key("/ws/b/real"));
}

#[test]
fn symlink_inside_workspace_pointing_outside() {
    let mut world = source_tree();
    world.dir("/tmp/out");
    world.link("/ws/sub", "/tmp/out");
    let run = run(&mut world, "/src/a", "/ws", Some("sub"));
    let error = run.outcome.err().unwrap();
    assert_eq!(
        error,
        "Symlink at /ws/sub resolves to /tmp/out which is outside workspace"
    );
    assert_eq!(world.writes, 0);
    assert!(!world.has("/tmp/out/a"));
    assert_eq!(run.requests, vec!["check /ws/sub/a", "finish"]);
    assert_eq!(phases(&run.events), vec!["scanning", "error"]);
}

#[test]
fn symlink_inside_workspace_pointing_inside_is_followed() {
    let mut world = source_tree();
    world.dir("/ws/real");
    world.link("/ws/sub", "/ws/real");
    let run = run(&mut world, "/src/a", "/ws", Some("sub"));
    let result = run.outcome.unwrap();
    assert_eq!(result.files_copied, 2);
    assert!(world.files.contains_key("/ws/real/a/x"));
}

#[test]
fn empty_source_gives_one_done_event() {
    let mut world = World::new();
    world.dir("/ws");
    world.dir("/src/empty");
    let run = run(&mut world, "/src/empty", "/ws", None);
    let result = run.outcome.unwrap();
    assert_eq!(result.files_copied, 0);
    assert_eq!(result.bytes_copied, 0);
    assert_eq!(result.dest_path, "/ws/empty");
    assert!(result.errors.is_empty());
    assert!(world.dirs.contains("/ws/empty"));
    assert!(world.scan("/ws/empty").len() == 1);
    let done: Vec<&ImportProgress> = run.events.iter().filter(|e| e.phase == "done").collect();
    assert_eq!(done.len(), 1);
    assert_eq!((done[0].processed, done[0].total), (0, 0));
    assert_eq!(phases(&run.events), vec!["scanning", "done"]);
}

#[test]
fn empty_subdirectories_are_kept() {
    let mut world = source_tree();
    world.dir("/src/a/hollow/deep");
    let run = run(&mut world, "/src/a", "/ws", None);
    assert!(run.outcome.is_ok());
    assert!(world.dirs.contains("/ws/a/hollow/deep"));
    assert!(run.requests.contains(&"mkdir /ws/a/hollow".to_string()));
    assert!(!run.requests.contains(&"mkdir /ws/a/y".to_string()));
}

#[test]
fn large_import_batches_its_events() {
    let mut world = World::new();
    world.dir("/ws");
    for i in 0..1503u32 {
        world.file(&format!("/src/big/f{:04}", i), b"x");
    }
    let run = run(&mut world, "/src/big", "/ws", None);
    let result = run.outcome.unwrap();
    assert_eq!(result.files_copied, 1503);
    assert_eq!(result.bytes_copied, 1503);
    let copying: Vec<&ImportProgress> =
        run.events.iter().filter(|e| e.phase == "copying").collect();
    assert_eq!(copying.len(), 151);
    assert!(copying.len() as u64 <= (1503 + 9) / 10 + 1);
    assert_eq!(run.last.copying_events, 151);
    assert_eq!(copying[0].processed, 10);
    assert_eq!(copying.last().unwrap().processed, 1503);
    assert!(copying.iter().all(|e| e.total == 1503));
    assert_eq!(run.events.last().unwrap().phase, "done");
}

#[test]
fn import_of_a_thousand_files_reports_each() {
    let mut world = World::new();
    world.dir("/ws");
    for i in 0..1000u32 {
        world.file(&format!("/src/k/f{:04}", i), b"ab");
    }
    let run = run(&mut world, "/src/k", "/ws", None);
    assert_eq!(run.outcome.unwrap().bytes_copied, 2000);
    assert_eq!(run.events.iter().filter(|e| e.phase == "copying").count(), 1000);
}

#[test]
fn failed_files_are_counted_and_do_not_end_the_import() {
    let mut world = source_tree();
    world.dir("/tmp/out");
    world.dir("/ws/a");
    world.link("/ws/a/y", "/tmp/out");
    world.link("/ws/a/x", "/tmp/out/elsewhere");
    let run = run(&mut world, "/src/a", "/ws", None);
    let result = run.outcome.unwrap();
    assert_eq!(result.files_copied, 0);
    assert_eq!(result.errors.len(), 2);
    assert_eq!(result.errors[0], "x: Cannot open destination /ws/a/x (symlink?)");
    assert_eq!(
        result.errors[1],
        "y/z: Symlink at /ws/a/y resolves to /tmp/out which is outside workspace"
    );
    assert_eq!(run.last.processed, 2);
    assert_eq!(run.last.total, 2);
    assert_eq!(result.files_copied + run.last.file_errors, run.last.processed);
    assert!(!world.has("/tmp/out/z"));
    assert_eq!(phases(&run.events), vec!["scanning", "copying", "copying", "done"]);
    assert_eq!(run.events[2].current_file, "y/z");
    assert_eq!((run.events[2].processed, run.events[2].total), (2, 2));
}

#[test]
fn failed_directory_is_recorded() {
    let (mut session, _, _) =
        ImportSession::begin("/src/a", "/ws", None, SourceKind::Directory, "7-7", OS);
    session.step(ImportReply::Checked(Ok(())));
    session.step(ImportReply::Created(Ok(())));
    let (_, request) = session.step(ImportReply::Scanned(vec![
        ScanEntry { path: "/src/a".to_string(), kind: EntryKind::Directory },
        ScanEntry { path: "/src/a/one".to_string(), kind: EntryKind::Directory },
        ScanEntry { path: "/src/a/two".to_string(), kind: EntryKind::Directory },
        ScanEntry { path: "/src/a/three".to_string(), kind: EntryKind::Directory },
    ]));
    assert_eq!(name_of(&request), "exists /ws/a/one");
    let (_, request) = session.step(ImportReply::Exists(false));
    assert_eq!(name_of(&request), "check /ws/a/one");
    let (events, request) = session.step(ImportReply::Checked(Err("escapes".to_string())));
    assert!(events.is_empty());
    assert_eq!(name_of(&request), "exists /ws/a/two");
    session.step(ImportReply::Exists(false));
    let (_, request) = session.step(ImportReply::Checked(Ok(())));
    assert_eq!(name_of(&request), "mkdir /ws/a/two");
    let (_, request) = session.step(ImportReply::Created(Err("denied".to_string())));
    assert_eq!(name_of(&request), "exists /ws/a/three");
    let (events, request) = session.step(ImportReply::Exists(true));
    assert_eq!(phases(&events), vec!["done"]);
    match request {
        ImportRequest::Finish(Ok(result)) => {
            assert_eq!(result.errors, vec!["dir one: escapes", "dir two: denied"]);
            assert_eq!(result.files_copied, 0);
        }
        _ => panic!("the import should have ended well"),
    }
    assert_eq!(session.file_errors, 0);
    assert_eq!(session.processed, 0);
}

#[test]
fn single_file_import() {
    let mut world = source_tree();
    let run = run(&mut world, "/src/a/x", "/ws", Some("inbox"));
    let result = run.outcome.unwrap();
    assert_eq!(result.files_copied, 1);
    assert_eq!(result.bytes_copied, 3);
    assert_eq!(result.dest_path, "/ws/inbox/x");
    assert!(result.errors.is_empty());
    assert_eq!(world.files.get("/ws/inbox/x").unwrap(), b"abc");
    assert_eq!(phases(&run.events), vec!["done"]);
    assert_eq!((run.events[0].processed, run.events[0].total), (1, 1));
    assert_eq!(run.events[0].current_file, "x");
    assert_eq!(
        run.requests,
        vec!["check /ws/inbox/x", "parents /ws/inbox/x", "copy /src/a/x /ws/inbox/x", "finish"]
    );
}

#[test]
fn single_file_failure_ends_the_import() {
    let mut world = source_tree();
    world.link("/ws/x", "/etc/passwd");
    let run = run(&mut world, "/src/a/x", "/ws", None);
    let error = run.outcome.err().unwrap();
    assert_eq!(error, "Cannot open destination /ws/x (symlink?)");
    assert_eq!(phases(&run.events), vec!["error"]);
}

#[test]
fn source_that_is_neither_file_nor_directory() {
    let (session, events, request) =
        ImportSession::begin("/dev/null", "/ws", None, SourceKind::Other, "7-7", OS);
    assert_eq!(session.stage, Stage::Finished);
    assert_eq!(phases(&events), vec!["error"]);
    match request {
        ImportRequest::Finish(Err(e)) => {
            assert_eq!(e, "Source is neither a file nor a directory: /dev/null")
        }
        _ => panic!("the import should have ended"),
    }
}

#[test]
fn source_without_a_name() {
    let (_, events, request) = ImportSession::begin("/", "/ws", None, SourceKind::Directory, "7-7", OS);
    assert_eq!(phases(&events), vec!["error"]);
    assert!(matches!(request, ImportRequest::Finish(Err(e)) if e == "Cannot determine folder name"));
    let (_, _, request) = ImportSession::begin("/src/..", "/ws", None, SourceKind::File, "7-7", OS);
    assert!(matches!(request, ImportRequest::Finish(Err(e)) if e == "Cannot determine file name"));
}

#[test]
fn reply_that_does_not_answer_the_request_ends_the_import() {
    let (mut session, _, _) =
        ImportSession::begin("/src/a", "/ws", None, SourceKind::Directory, "7-7", OS);
    let (events, request) = session.step(ImportReply::Exists(true));
    assert_eq!(phases(&events), vec!["error"]);
    assert!(matches!(request, ImportRequest::Finish(Err(e)) if e == "Unexpected reply"));
    let (_, request) = session.step(ImportReply::Checked(Ok(())));
    assert!(matches!(request, ImportRequest::Finish(Err(_))));
}

#[test]
fn root_creation_failure_ends_the_import() {
    let (mut session, _, _) =
        ImportSession::begin("/src/a", "/ws", None, SourceKind::Directory, "7-7", OS);
    let (_, request) = session.step(ImportReply::Checked(Ok(())));
    assert_eq!(name_of(&request), "mkdir /ws/a");
    let (events, request) =
        session.step(ImportReply::Created(Err("Failed to create directory /ws/a: full".to_string())));
    assert_eq!(phases(&events), vec!["error"]);
    assert!(
        matches!(request, ImportRequest::Finish(Err(e)) if e == "Failed to create directory /ws/a: full")
    );
}

#[test]
fn entry_outside_the_source_is_checked_like_any_other() {
    let (mut session, _, _) =
        ImportSession::begin("/src/a", "/ws", None, SourceKind::Directory, "7-7", OS);
    session.step(ImportReply::Checked(Ok(())));
    session.step(ImportReply::Created(Ok(())));
    let (_, request) = session.step(ImportReply::Scanned(vec![
        ScanEntry { path: "/src/a".to_string(), kind: EntryKind::Directory },
        ScanEntry { path: "/elsewhere/f".to_string(), kind: EntryKind::File },
        ScanEntry { path: "/src/a/other".to_string(), kind: EntryKind::Other },
    ]));
    assert_eq!(session.total, 1);
    assert_eq!(name_of(&request), "check /elsewhere/f");
    let world = source_tree();
    let verdict = check_within(&world, "/elsewhere/f", "/ws");
    assert_eq!(verdict, Err("Path /elsewhere/f is not under workspace /ws".to_string()));
}

#[test]
fn containment_walk_accepts_a_plain_destination() {
    let mut world = World::new();
    world.dir("/ws/a");
    assert_eq!(check_within(&world, "/ws/a/b/c.txt", "/ws"), Ok(()));
    assert_eq!(check_within(&world, "/ws", "/ws"), Ok(()));
}

#[test]
fn containment_walk_probes_each_component() {
    let (mut walk, step) = ensure_within_workspace("/ws/a/b", "/ws", Ok("/real/ws".to_string()), OS);
    assert!(matches!(step, WalkStep::Probe(p) if p == "/real/ws/a"));
    let step = walk.advance(Probe::Resolved("/real/ws/other".to_string()));
    assert!(matches!(step, WalkStep::Probe(p) if p == "/real/ws/other/b"));
    let step = walk.advance(Probe::Missing);
    assert!(matches!(step, WalkStep::Accept));
    let step = walk.advance(Probe::Missing);
    assert!(
        matches!(step, WalkStep::Reject(e) if e == "Containment check is not waiting for an answer")
    );
}

#[test]
fn containment_walk_refuses() {
    let (_, step) = ensure_within_workspace("/ws/a", "/ws", Err("gone".to_string()), OS);
    assert!(matches!(step, WalkStep::Reject(e) if e == "Cannot resolve workspace path: gone"));
    let (_, step) = ensure_within_workspace("/ws/../etc", "/ws", Ok("/ws".to_string()), OS);
    assert!(matches!(step, WalkStep::Reject(e) if e == "Path contains '..' component: /ws/../etc"));
    let (mut walk, _) = ensure_within_workspace("/ws/a/../b", "/ws", Ok("/ws".to_string()), OS);
    let step = walk.advance(Probe::Missing);
    assert!(matches!(step, WalkStep::Reject(e) if e == "Path contains '..' component: /ws/a/../b"));
    let (mut walk, _) = ensure_within_workspace("/ws/a", "/ws", Ok("/ws".to_string()), OS);
    let step = walk.advance(Probe::Unresolvable("loop".to_string()));
    assert!(matches!(step, WalkStep::Reject(e) if e == "Cannot resolve /ws/a: loop"));
}

fn made(workspace: &str, created: Result<&str, &str>, made: Option<&str>) -> Creation {
    Creation::Made {
        workspace: Ok(workspace.to_string()),
        created: created.map(|s| s.to_string()).map_err(|s| s.to_string()),
        made: made.map(|s| s.to_string()),
    }
}

#[test]
fn created_directory_is_judged() {
    assert!(safe_create_dir("/ws/a", made("/ws", Ok("/ws/a"), Some("/ws/a")), OS).is_ok());
    assert!(safe_create_dir("/ws/a", made("/ws", Ok("/ws/a"), None), OS).is_ok());
    let failed = safe_create_dir("/ws/a", Creation::Failed("denied".to_string()), OS).err().unwrap();
    assert_eq!(failed.message, "Failed to create directory /ws/a: denied");
    assert_eq!(failed.remove, None);
    let lost = Creation::Made {
        workspace: Err("gone".to_string()),
        created: Ok("/x".to_string()),
        made: Some("/x".to_string()),
    };
    let failure = safe_create_dir("/ws/a", lost, OS).err().unwrap();
    assert_eq!(failure.message, "Cannot resolve workspace: gone");
    assert_eq!(failure.remove, None);
    let failure = safe_create_dir("/ws/a", made("/ws", Err("gone"), Some("/ws/a")), OS).err().unwrap();
    assert_eq!(failure.message, "Cannot resolve created directory /ws/a: gone");
    assert_eq!(failure.remove, None);
    let failure =
        safe_create_parent_dirs("/ws/a", made("/ws", Err("gone"), None), OS).err().unwrap();
    assert_eq!(failure.message, "Cannot resolve created parent: gone");
}

#[test]
fn only_what_the_call_created_is_removed() {
    let escaped = made("/ws", Ok("/tmp/out/a/b"), Some("/ws/sub/a"));
    let failure = safe_create_dir("/ws/sub/a/b", escaped, OS).err().unwrap();
    assert_eq!(
        failure.message,
        "Created directory /ws/sub/a/b resolves outside workspace to /tmp/out/a/b"
    );
    assert_eq!(failure.remove, Some("/ws/sub/a".to_string()));
    let existed = made("/ws", Ok("/tmp/out/a"), None);
    let failure = safe_create_dir("/ws/sub/a", existed, OS).err().unwrap();
    assert_eq!(
        failure.message,
        "Created directory /ws/sub/a resolves outside workspace to /tmp/out/a"
    );
    assert_eq!(failure.remove, None);
}

#[test]
fn directory_that_existed_outside_is_left_alone() {
    let mut world = World::new();
    world.dir("/ws");
    world.dir("/tmp/out/kept");
    world.link("/ws/sub", "/tmp/out");
    let verdict = create_checked(&mut world, "/ws/sub/kept", "/ws", false);
    assert!(verdict.is_err());
    assert!(world.dirs.contains("/tmp/out/kept"));
    let verdict = create_checked(&mut world, "/ws/sub/new/deep", "/ws", false);
    assert!(verdict.is_err());
    assert!(!world.dirs.contains("/tmp/out/new"));
    assert!(world.dirs.contains("/tmp/out/kept"));
}

#[test]
fn windows_directory_below_the_workspace_is_accepted() {
    let os = HostOs::Windows;
    let ok = made("\\\\?\\C:\\ws", Ok("\\\\?\\C:\\ws\\a"), Some("C:\\ws\\a"));
    assert!(safe_create_dir("C:\\ws\\a", ok, os).is_ok());
    let ok = made("\\\\?\\C:\\ws", Ok("\\\\?\\C:\\ws\\a\\b"), None);
    assert!(safe_create_parent_dirs("C:\\ws\\a\\b", ok, os).is_ok());
    let out = made("\\\\?\\C:\\ws", Ok("\\\\?\\C:\\out\\a"), Some("C:\\ws\\sub\\a"));
    let failure = safe_create_dir("C:\\ws\\sub\\a", out, os).err().unwrap();
    assert_eq!(failure.remove, Some("C:\\ws\\sub\\a".to_string()));
    let near = made("\\\\?\\C:\\ws", Ok("\\\\?\\C:\\ws2\\a"), None);
    assert!(safe_create_dir("C:\\ws\\a", near, os).is_err());
}

#[test]
fn windows_containment_walk() {
    let os = HostOs::Windows;
    let root = "\\\\?\\C:\\ws".to_string();
    let (mut walk, step) = ensure_within_workspace("C:\\ws\\a\\b.txt", "C:\\ws", Ok(root), os);
    assert!(matches!(step, WalkStep::Probe(p) if p == "\\\\?\\C:\\ws\\a"));
    let step = walk.advance(Probe::Resolved("\\\\?\\C:\\ws\\a".to_string()));
    assert!(matches!(step, WalkStep::Probe(p) if p == "\\\\?\\C:\\ws\\a\\b.txt"));
    assert!(matches!(walk.advance(Probe::Missing), WalkStep::Accept));
    let root = "\\\\?\\C:\\ws".to_string();
    let (mut walk, _) = ensure_within_workspace("C:\\ws\\sub\\a", "C:\\ws", Ok(root), os);
    let step = walk.advance(Probe::Resolved("\\\\?\\C:\\out".to_string()));
    assert!(matches!(step, WalkStep::Reject(e)
        if e == "Symlink at \\\\?\\C:\\ws\\sub resolves to \\\\?\\C:\\out which is outside workspace"));
    let root = "\\\\?\\C:\\ws".to_string();
    let (_, step) = ensure_within_workspace("C:\\other\\a", "C:\\ws", Ok(root), os);
    assert!(matches!(step, WalkStep::Reject(e)
        if e == "Path C:\\other\\a is not under workspace C:\\ws"));
    let root = "\\\\?\\C:\\ws".to_string();
    let (_, step) = ensure_within_workspace("C:\\ws\\..\\x", "C:\\ws", Ok(root), os);
    assert!(matches!(step, WalkStep::Reject(e) if e == "Path contains '..' component: C:\\ws\\..\\x"));
}

#[test]
fn windows_import_writes_paths_as_the_host_does() {
    let os = HostOs::Windows;
    let (mut session, events, request) = ImportSession::begin(
        "C:\\src\\a",
        "C:\\ws",
        Some("in\\box"),
        SourceKind::Directory,
        "7-7",
        os,
    );
    assert_eq!(phases(&events), vec!["scanning"]);
    assert_eq!(name_of(&request), "check C:\\ws\\in\\box\\a");
    let (_, request) = session.step(ImportReply::Checked(Ok(())));
    assert_eq!(name_of(&request), "mkdir C:\\ws\\in\\box\\a");
    let (_, request) = session.step(ImportReply::Created(Ok(())));
    assert_eq!(name_of(&request), "scan C:\\src\\a");
    let (_, request) = session.step(ImportReply::Scanned(vec![
        ScanEntry { path: "C:\\src\\a".to_string(), kind: EntryKind::Directory },
        ScanEntry { path: "C:\\src\\a\\y".to_string(), kind: EntryKind::Directory },
        ScanEntry { path: "C:\\src\\a\\y\\z".to_string(), kind: EntryKind::File },
    ]));
    assert_eq!(session.total, 1);
    assert_eq!(name_of(&request), "check C:\\ws\\in\\box\\a\\y\\z");
    let (_, request) = session.step(ImportReply::Checked(Ok(())));
    assert_eq!(name_of(&request), "parents C:\\ws\\in\\box\\a\\y\\z");
    let (_, request) = session.step(ImportReply::Created(Ok(())));
    assert_eq!(
        name_of(&request),
        "copy C:\\src\\a\\y\\z C:\\ws\\in\\box\\a\\y\\z"
    );
    let (events, request) = session.step(ImportReply::Copied(Ok(5)));
    assert_eq!(events[0].current_file, "y\\z");
    assert_eq!(name_of(&request), "exists C:\\ws\\in\\box\\a\\y");
    let (_, request) = session.step(ImportReply::Exists(true));
    match request {
        ImportRequest::Finish(Ok(result)) => {
            assert_eq!(result.dest_path, "C:\\ws\\in\\box\\a");
            assert_eq!(result.files_copied, 1);
        }
        _ => panic!("the import should have ended well"),
    }
}

#[test]
fn entry_without_a_name_leaves_an_error() {
    let (mut session, _, _) =
        ImportSession::begin("/src/a", "/ws", None, SourceKind::Directory, "7-7", OS);
    session.step(ImportReply::Checked(Ok(())));
    session.step(ImportReply::Created(Ok(())));
    let (_, request) = session.step(ImportReply::Scanned(vec![
        ScanEntry { path: "/src/a".to_string(), kind: EntryKind::Directory },
        ScanEntry { path: "/src/a/bad\u{fffd}name".to_string(), kind: EntryKind::Unnamed },
        ScanEntry { path: "/src/a/good".to_string(), kind: EntryKind::File },
    ]));
    assert_eq!(session.total, 1);
    assert_eq!(session.errors, vec!["bad\u{fffd}name: name is not valid UTF-8"]);
    assert_eq!(name_of(&request), "check /ws/a/good");
    session.step(ImportReply::Checked(Ok(())));
    session.step(ImportReply::Created(Ok(())));
    let (_, request) = session.step(ImportReply::Copied(Ok(1)));
    match request {
        ImportRequest::Finish(Ok(result)) => {
            assert_eq!(result.files_copied, 1);
            assert_eq!(result.errors.len(), 1);
        }
        _ => panic!("the import should have ended well"),
    }
    assert_eq!(session.file_errors, 0);
    assert_eq!(session.processed, 1);
}

#[test]
fn dangling_link_is_not_taken_for_a_missing_path() {
    let (mut walk, step) = ensure_within_workspace("/ws/sub/a", "/ws", Ok("/ws".to_string()), OS);
    assert!(matches!(step, WalkStep::Probe(p) if p == "/ws/sub"));
    let step = walk.advance(Probe::Unresolvable("No such file or directory".to_string()));
    assert!(matches!(step, WalkStep::Reject(e)
        if e == "Cannot resolve /ws/sub: No such file or directory"));
}

#[test]
fn link_at_the_destination_of_a_copy_is_refused() {
    assert_eq!(safe_copy_file("C:/ws/a", CopyMoment::Before, false), Ok(()));
    assert_eq!(safe_copy_file("C:/ws/a", CopyMoment::After, false), Ok(()));
    assert_eq!(
        safe_copy_file("C:/ws/a", CopyMoment::Before, true),
        Err("Destination is a symlink/junction: C:/ws/a".to_string())
    );
    assert_eq!(
        safe_copy_file("C:/ws/a", CopyMoment::After, true),
        Err("Destination became a symlink during copy: C:/ws/a".to_string())
    );
    assert_eq!(IMPORT_PROGRESS_EVENT, "folder-import-progress");
}

#[test]
fn large_import_with_failures_still_batches_its_events() {
    let (mut session, _, _) =
        ImportSession::begin("/src/a", "/ws", None, SourceKind::Directory, "7-7", OS);
    session.step(ImportReply::Checked(Ok(())));
    session.step(ImportReply::Created(Ok(())));
    let entries: Vec<ScanEntry> = (0..1005)
        .map(|i| ScanEntry { path: format!("/src/a/f{}", i), kind: EntryKind::File })
        .collect();
    let (_, mut request) = session.step(ImportReply::Scanned(entries));
    let mut copying = 0;
    loop {
        let (events, next) = match request {
            ImportRequest::Finish(_) => break,
            ImportRequest::EnsureWithin { .. } => {
                session.step(ImportReply::Checked(Err("refused".to_string())))
            }
            _ => panic!("every file is refused at its check"),
        };
        copying += events.iter().filter(|e| e.phase == "copying").count();
        request = next;
    }
    assert_eq!(copying, 101);
    assert_eq!(session.copying_events, 101);
    assert_eq!(session.processed, 1005);
    assert_eq!(session.file_errors, 1005);
    assert_eq!(session.files_copied, 0);
}

#[test]
fn workspace_info_reports_path_and_existence() {
    let state = WorkspaceState { workspace_path: "/data/workspace".to_string() };
    let info = get_workspace_path(&state, true);
    assert_eq!(info.path, "/data/workspace");
    assert!(info.exists);
    assert!(!get_workspace_path(&state, false).exists);
}

#[test]
fn import_id_joins_process_and_time() {
    assert_eq!(import_id(4242, 1767225600123), "4242-1767225600123");
    assert_eq!(import_id(0, 0), "0-0");
    assert_eq!(chrono_now(1767225600), "1767225600s");
}
