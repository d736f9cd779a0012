//! The import session: what an import of a file or a folder does, step
//! by step.
//!
//! The session issues one request at a time. The caller performs it
//! and hands back a reply, and the session answers with the progress events
//! to emit and the next request. The last request is `Finish`, which carries
//! the result of the import.
//!
//! The session keeps its paths in slash form and reads the paths that it
//! is given as the host reads them; every path that it hands out, in a
//! request, an event, an error or the result, is written as the host
//! writes it.

use vstd::prelude::*;
use crate::commands::{
    error_event, error_progress, events_view, progress, subpath_error,
    validate_subpath, ImportProgress, ImportProgressView, ImportResult, ImportResultView,
    WorkspaceState,
};
use crate::path::{
    components, dotdot, file_name_spec, host_form, join_paths, join_spec, parts_view, posix_form,
    render, render_path, same_path_spec, slash_file_name, slash_relative_to, slash_same_path,
    split_components, starts_with_spec, strip_prefix_spec, to_host, to_posix,
};
use crate::path_laws::{
    law_accepted_subpath_stays_below, law_components_are_plain, law_join_stays_below,
    lemma_components_of_plain, plain,
};
use crate::text::{
    chars_of, clone_texts, concat2, concat3, concat4, decimal, decimal_string, push_text,
    string_of, texts,
};
use crate::vm::HostOs;

verus! {

/// What the source of an import is.
#[derive(Clone, Copy, PartialEq, Eq, Debug)]
pub enum SourceKind {
    File,
    Directory,
    Other,
}

/// What an entry of the source tree is; a link is not followed.
#[derive(Clone, Copy, PartialEq, Eq, Debug)]
pub enum EntryKind {
    File,
    Directory,
    Symlink,
    Other,
    /// An entry whose name cannot be written as text; its path holds
    /// what can be written of it.
    Unnamed,
}

/// One entry that the walk of the source tree found.
pub struct ScanEntry {
    pub path: String,
    pub kind: EntryKind,
}

/// A `ScanEntry` as a plain value.
pub struct ScanEntryView {
    pub path: Seq<char>,
    pub kind: EntryKind,
}

impl View for ScanEntry {
    type V = ScanEntryView;

    open spec fn view(&self) -> ScanEntryView {
        ScanEntryView { path: self.path@, kind: self.kind }
    }
}

/// The views of the entries in `v`.
pub open spec fn entries_view(v: Seq<ScanEntry>) -> Seq<ScanEntryView> {
    Seq::new(v.len(), |i: int| v[i]@)
}

/// A file to copy: where it is, and its path below the source root.
pub struct ScannedFile {
    pub source: String,
    pub relative: String,
}

/// The views of the files in `v`: source and relative path of each.
pub open spec fn files_view(v: Seq<ScannedFile>) -> Seq<(Seq<char>, Seq<char>)> {
    Seq::new(v.len(), |i: int| (v[i].source@, v[i].relative@))
}

/// What the session asks its caller to do.
pub enum ImportRequest {
    /// Check that `dest` stays within the workspace, creating nothing.
    EnsureWithin { dest: String },
    /// Create the parent directories of `dest` and check where they are.
    CreateParentDirs { dest: String },
    /// Create the directory `dir` and check where it is.
    CreateDir { dir: String },
    /// Copy the file `source` to `dest` without following a link at `dest`.
    CopyFile { source: String, dest: String },
    /// Walk the tree below `source`, parents before children, without
    /// following links.
    Scan { source: String },
    /// Say whether anything exists at `path`.
    Exists { path: String },
    /// The import is over, with this result.
    Finish(Result<ImportResult, String>),
}

/// An `ImportRequest` as a plain value.
pub enum RequestView {
    EnsureWithin { dest: Seq<char> },
    CreateParentDirs { dest: Seq<char> },
    CreateDir { dir: Seq<char> },
    CopyFile { source: Seq<char>, dest: Seq<char> },
    Scan { source: Seq<char> },
    Exists { path: Seq<char> },
    Finish(Result<ImportResultView, Seq<char>>),
}

impl View for ImportRequest {
    type V = RequestView;

    open spec fn view(&self) -> RequestView {
        match self {
            ImportRequest::EnsureWithin { dest } => RequestView::EnsureWithin { dest: dest@ },
            ImportRequest::CreateParentDirs { dest } => RequestView::CreateParentDirs {
                dest: dest@,
            },
            ImportRequest::CreateDir { dir } => RequestView::CreateDir { dir: dir@ },
            ImportRequest::CopyFile { source, dest } => RequestView::CopyFile {
                source: source@,
                dest: dest@,
            },
            ImportRequest::Scan { source } => RequestView::Scan { source: source@ },
            ImportRequest::Exists { path } => RequestView::Exists { path: path@ },
            ImportRequest::Finish(Ok(r)) => RequestView::Finish(Ok(r@)),
            ImportRequest::Finish(Err(e)) => RequestView::Finish(Err(e@)),
        }
    }
}

/// What the caller reports back.
pub enum ImportReply {
    /// How the containment check ended.
    Checked(Result<(), String>),
    /// How creating a directory and checking it ended.
    Created(Result<(), String>),
    /// The bytes that were copied, or why the copy failed.
    Copied(Result<u64, String>),
    /// The entries of the source tree, in the order of the walk.
    Scanned(Vec<ScanEntry>),
    /// Whether the path exists.
    Exists(bool),
}

/// An `ImportReply` as a plain value.
pub enum ReplyView {
    Checked(Result<(), Seq<char>>),
    Created(Result<(), Seq<char>>),
    Copied(Result<u64, Seq<char>>),
    Scanned(Seq<ScanEntryView>),
    Exists(bool),
}

impl View for ImportReply {
    type V = ReplyView;

    open spec fn view(&self) -> ReplyView {
        match self {
            ImportReply::Checked(Ok(_)) => ReplyView::Checked(Ok(())),
            ImportReply::Checked(Err(e)) => ReplyView::Checked(Err(e@)),
            ImportReply::Created(Ok(_)) => ReplyView::Created(Ok(())),
            ImportReply::Created(Err(e)) => ReplyView::Created(Err(e@)),
            ImportReply::Copied(Ok(n)) => ReplyView::Copied(Ok(*n)),
            ImportReply::Copied(Err(e)) => ReplyView::Copied(Err(e@)),
            ImportReply::Scanned(entries) => ReplyView::Scanned(entries_view(entries@)),
            ImportReply::Exists(b) => ReplyView::Exists(*b),
        }
    }
}

/// Where a session stands: the request that it waits on.
#[derive(Clone, Copy, PartialEq, Eq, Debug)]
pub enum Stage {
    /// Single file: the destination is being checked.
    FileCheck,
    /// Single file: the parent directories are being created.
    FileParents,
    /// Single file: the file is being copied.
    FileCopy,
    /// Folder: the destination root is being checked.
    RootCheck,
    /// Folder: the destination root is being created.
    RootCreate,
    /// Folder: the source tree is being walked.
    Scan,
    /// Folder: the destination of file `index` is being checked.
    CopyCheck,
    /// Folder: the parent directories of file `index` are being created.
    CopyParents,
    /// Folder: file `index` is being copied.
    CopyFile,
    /// Folder: the session asked whether directory `index` exists.
    DirProbe,
    /// Folder: the destination of directory `index` is being checked.
    DirCheck,
    /// Folder: directory `index` is being created.
    DirCreate,
    /// The import is over.
    Finished,
}

/// The path of the entry `path` below the source root `source`, or
/// `path` itself where it does not lie below `source`.
pub open spec fn relative_of(path: Seq<char>, source: Seq<char>) -> Seq<char> {
    match strip_prefix_spec(path, source) {
        Some(parts) => render(false, parts),
        None => path,
    }
}

/// The regular files among `entries`, in order: the path of each as
/// it was given, and its path below `source`. Links and other entries
/// are left out. `source` is in slash form.
pub open spec fn scanned_files(entries: Seq<ScanEntryView>, source: Seq<char>, os: HostOs) -> Seq<
    (Seq<char>, Seq<char>),
>
    decreases entries.len(),
{
    if entries.len() == 0 {
        Seq::empty()
    } else {
        let before = scanned_files(entries.drop_last(), source, os);
        let e = entries.last();
        if e.kind == EntryKind::File {
            before.push((e.path, relative_of(posix_form(e.path, os), source)))
        } else {
            before
        }
    }
}

/// The directories among `entries` other than `source` itself, in order:
/// the path of each below `source`.
pub open spec fn scanned_dirs(entries: Seq<ScanEntryView>, source: Seq<char>, os: HostOs) -> Seq<
    Seq<char>,
>
    decreases entries.len(),
{
    if entries.len() == 0 {
        Seq::empty()
    } else {
        let before = scanned_dirs(entries.drop_last(), source, os);
        let e = entries.last();
        if e.kind == EntryKind::Directory && !same_path_spec(posix_form(e.path, os), source) {
            before.push(relative_of(posix_form(e.path, os), source))
        } else {
            before
        }
    }
}

/// The errors for the entries among `entries` whose names cannot be
/// written as text, in order: such an entry is not imported.
pub open spec fn unnamed_errors(entries: Seq<ScanEntryView>, source: Seq<char>, os: HostOs) -> Seq<
    Seq<char>,
>
    decreases entries.len(),
{
    if entries.len() == 0 {
        Seq::empty()
    } else {
        let before = unnamed_errors(entries.drop_last(), source, os);
        let e = entries.last();
        if e.kind == EntryKind::Unnamed {
            before.push(
                host_form(relative_of(posix_form(e.path, os), source), os)
                    + ": name is not valid UTF-8"@,
            )
        } else {
            before
        }
    }
}

/// After how many files a `copying` event is due: every file up to a
/// thousand files, every tenth file beyond.
pub open spec fn emit_interval(total: u64) -> u64 {
    if total > 1000 {
        10
    } else {
        1
    }
}

/// Whether a `copying` event is due once `processed` of `total` files
/// have been handled.
pub open spec fn copying_due(processed: u64, total: u64) -> bool {
    processed % emit_interval(total) == 0 || processed == total
}

/// A session as a plain value. Workspace, source and destination are
/// in slash form.
pub struct SessionView {
    pub import_id: Seq<char>,
    pub os: HostOs,
    pub workspace: Seq<char>,
    pub source: Seq<char>,
    /// The destination: of the file, or the root of the copied tree.
    pub dest: Seq<char>,
    /// The name of the single file.
    pub label: Seq<char>,
    pub stage: Stage,
    pub files: Seq<(Seq<char>, Seq<char>)>,
    pub dirs: Seq<Seq<char>>,
    /// The file or directory that the session works on.
    pub index: int,
    pub total: u64,
    pub processed: u64,
    pub files_copied: u64,
    pub bytes_copied: u64,
    pub errors: Seq<Seq<char>>,
    /// How many of the errors are failures of files.
    pub file_errors: u64,
    /// How many `copying` events were emitted.
    pub copying_events: u64,
}

/// What a step of a session gives: the session after it, the events to
/// emit, and the next request.
pub struct Outcome {
    pub next: SessionView,
    pub events: Seq<ImportProgressView>,
    pub request: RequestView,
}

impl SessionView {
    /// The result that the session would report now.
    pub open spec fn result(self) -> ImportResultView {
        ImportResultView {
            import_id: self.import_id,
            files_copied: self.files_copied,
            bytes_copied: self.bytes_copied,
            dest_path: self.dest_host(),
            errors: self.errors,
        }
    }

    /// The path of the file at hand below the source, as the host
    /// writes it.
    pub open spec fn shown_file(self) -> Seq<char> {
        host_form(self.files[self.index].1, self.os)
    }

    /// The destination as the host writes it.
    pub open spec fn dest_host(self) -> Seq<char> {
        host_form(self.dest, self.os)
    }

    /// The source as the host writes it.
    pub open spec fn source_host(self) -> Seq<char> {
        host_form(self.source, self.os)
    }

    /// The event with the counts of the session, for `file` and `phase`.
    pub open spec fn event(self, file: Seq<char>, phase: Seq<char>) -> ImportProgressView {
        ImportProgressView {
            import_id: self.import_id,
            processed: self.processed,
            total: self.total,
            current_file: file,
            phase,
        }
    }

    /// The import fails as a whole with `message`.
    pub open spec fn fail(self, message: Seq<char>) -> Outcome {
        Outcome {
            next: SessionView { stage: Stage::Finished, ..self },
            events: seq![error_event(self.import_id, message)],
            request: RequestView::Finish(Err(message)),
        }
    }

    /// The import ends well: after `events` comes the `done` event.
    pub open spec fn finish(self, events: Seq<ImportProgressView>) -> Outcome {
        Outcome {
            next: SessionView { stage: Stage::Finished, ..self },
            events: events.push(self.event(Seq::empty(), "done"@)),
            request: RequestView::Finish(Ok(self.result())),
        }
    }

    /// Where file `i` goes, as the host writes it.
    pub open spec fn file_dest(self, i: int) -> Seq<char> {
        host_form(join_spec(self.dest, self.files[i].1), self.os)
    }

    /// Where directory `j` goes, as the host writes it.
    pub open spec fn dir_dest(self, j: int) -> Seq<char> {
        host_form(join_spec(self.dest, self.dirs[j]), self.os)
    }

    /// Turns to directory `j`, or ends the import after the last one.
    pub open spec fn enter_dirs(self, j: int, events: Seq<ImportProgressView>) -> Outcome {
        if j < self.dirs.len() {
            Outcome {
                next: SessionView { stage: Stage::DirProbe, index: j, ..self },
                events,
                request: RequestView::Exists { path: self.dir_dest(j) },
            }
        } else {
            self.finish(events)
        }
    }

    /// Turns to file `i`, or to the directories after the last file.
    pub open spec fn enter_files(self, i: int, events: Seq<ImportProgressView>) -> Outcome {
        if i < self.files.len() {
            Outcome {
                next: SessionView { stage: Stage::CopyCheck, index: i, ..self },
                events,
                request: RequestView::EnsureWithin { dest: self.file_dest(i) },
            }
        } else {
            self.enter_dirs(0, events)
        }
    }

    /// The session once the file at hand is counted: as copied with
    /// its bytes, or as failed with its error.
    pub open spec fn counted(self, ended: Result<u64, Seq<char>>) -> SessionView {
        match ended {
            Ok(bytes) => SessionView {
                files_copied: (self.files_copied + 1) as u64,
                bytes_copied: (self.bytes_copied + bytes) as u64,
                processed: (self.processed + 1) as u64,
                ..self
            },
            Err(e) => SessionView {
                errors: self.errors.push(self.shown_file() + ": "@ + e),
                file_errors: (self.file_errors + 1) as u64,
                processed: (self.processed + 1) as u64,
                ..self
            },
        }
    }

    /// The file at hand is done with, copied or failed: it is counted,
    /// a `copying` event is emitted where one is due, and the session
    /// turns to the next file.
    pub open spec fn file_done(self, ended: Result<u64, Seq<char>>) -> Outcome {
        let counted = self.counted(ended);
        if copying_due(counted.processed, counted.total) {
            let told = SessionView {
                copying_events: (counted.copying_events + 1) as u64,
                ..counted
            };
            told.enter_files(self.index + 1, seq![counted.event(self.shown_file(), "copying"@)])
        } else {
            counted.enter_files(self.index + 1, Seq::empty())
        }
    }

    /// The directory at hand failed: the error is recorded.
    pub open spec fn dir_failed(self, message: Seq<char>) -> Outcome {
        let noted = SessionView {
            errors: self.errors.push(
                "dir "@ + host_form(self.dirs[self.index], self.os) + ": "@ + message,
            ),
            ..self
        };
        noted.enter_dirs(self.index + 1, Seq::empty())
    }

    /// The session goes on to `stage` with `request`, emitting nothing.
    pub open spec fn go(self, stage: Stage, request: RequestView) -> Outcome {
        Outcome { next: SessionView { stage, ..self }, events: Seq::empty(), request }
    }

    /// The single file was copied, with `bytes` bytes.
    pub open spec fn single_done(self, bytes: u64) -> Outcome {
        let counted = SessionView {
            stage: Stage::Finished,
            total: 1,
            processed: 1,
            files_copied: 1,
            bytes_copied: bytes,
            ..self
        };
        Outcome {
            next: counted,
            events: seq![counted.event(self.label, "done"@)],
            request: RequestView::Finish(Ok(counted.result())),
        }
    }

    /// The source tree was walked and gave `entries`: the files and the
    /// directories are listed, and an entry without a name that can be
    /// written leaves an error.
    pub open spec fn scanned(self, entries: Seq<ScanEntryView>) -> Outcome {
        let files = scanned_files(entries, self.source, self.os);
        let listed = SessionView {
            files,
            dirs: scanned_dirs(entries, self.source, self.os),
            total: files.len() as u64,
            errors: unnamed_errors(entries, self.source, self.os),
            ..self
        };
        listed.enter_files(0, Seq::empty())
    }

    /// What the session does on `reply`.
    ///
    /// A failure of the destination of a single file or of the root of
    /// a folder ends the import. A failure of one file or directory
    /// of a folder is recorded and the import goes on. A reply that does
    /// not answer the request at hand ends the import.
    pub open spec fn step(self, reply: ReplyView) -> Outcome {
        match (self.stage, reply) {
            (Stage::FileCheck, ReplyView::Checked(Ok(_))) => self.go(
                Stage::FileParents,
                RequestView::CreateParentDirs { dest: self.dest_host() },
            ),
            (Stage::FileCheck, ReplyView::Checked(Err(e))) => self.fail(e),
            (Stage::FileParents, ReplyView::Created(Ok(_))) => self.go(
                Stage::FileCopy,
                RequestView::CopyFile { source: self.source_host(), dest: self.dest_host() },
            ),
            (Stage::FileParents, ReplyView::Created(Err(e))) => self.fail(e),
            (Stage::FileCopy, ReplyView::Copied(Ok(bytes))) => self.single_done(bytes),
            (Stage::FileCopy, ReplyView::Copied(Err(e))) => self.fail(e),
            (Stage::RootCheck, ReplyView::Checked(Ok(_))) => self.go(
                Stage::RootCreate,
                RequestView::CreateDir { dir: self.dest_host() },
            ),
            (Stage::RootCheck, ReplyView::Checked(Err(e))) => self.fail(e),
            (Stage::RootCreate, ReplyView::Created(Ok(_))) => self.go(
                Stage::Scan,
                RequestView::Scan { source: self.source_host() },
            ),
            (Stage::RootCreate, ReplyView::Created(Err(e))) => self.fail(e),
            (Stage::Scan, ReplyView::Scanned(entries)) => self.scanned(entries),
            (Stage::CopyCheck, ReplyView::Checked(Ok(_))) => self.go(
                Stage::CopyParents,
                RequestView::CreateParentDirs { dest: self.file_dest(self.index) },
            ),
            (Stage::CopyCheck, ReplyView::Checked(Err(e))) => self.file_done(Err(e)),
            (Stage::CopyParents, ReplyView::Created(Ok(_))) => self.go(
                Stage::CopyFile,
                RequestView::CopyFile {
                    source: self.files[self.index].0,
                    dest: self.file_dest(self.index),
                },
            ),
            (Stage::CopyParents, ReplyView::Created(Err(e))) => self.file_done(Err(e)),
            (Stage::CopyFile, ReplyView::Copied(copied)) => self.file_done(copied),
            (Stage::DirProbe, ReplyView::Exists(true)) => self.enter_dirs(
                self.index + 1,
                Seq::empty(),
            ),
            (Stage::DirProbe, ReplyView::Exists(false)) => self.go(
                Stage::DirCheck,
                RequestView::EnsureWithin { dest: self.dir_dest(self.index) },
            ),
            (Stage::DirCheck, ReplyView::Checked(Ok(_))) => self.go(
                Stage::DirCreate,
                RequestView::CreateDir { dir: self.dir_dest(self.index) },
            ),
            (Stage::DirCheck, ReplyView::Checked(Err(e))) => self.dir_failed(e),
            (Stage::DirCreate, ReplyView::Created(Ok(_))) => self.enter_dirs(
                self.index + 1,
                Seq::empty(),
            ),
            (Stage::DirCreate, ReplyView::Created(Err(e))) => self.dir_failed(e),
            _ => self.fail("Unexpected reply"@),
        }
    }

    /// What holds of every session that `begin` and `step` produce.
    ///
    /// While files are copied, the files before the one at hand are the
    /// processed ones; while directories are made, all files are
    /// processed. Every processed file was either copied or left an
    /// error. `copying` events are no more than the files processed
    /// allow.
    pub open spec fn wf(self) -> bool {
        &&& self.files.len() <= usize::MAX
        &&& self.dirs.len() <= usize::MAX
        &&& 0 <= self.index
        &&& match self.stage {
            Stage::CopyCheck | Stage::CopyParents | Stage::CopyFile => {
                &&& self.index < self.files.len()
                &&& self.processed == self.index
                &&& self.total == self.files.len()
            },
            Stage::DirProbe | Stage::DirCheck | Stage::DirCreate => {
                &&& self.index < self.dirs.len()
                &&& self.processed == self.total
                &&& self.total == self.files.len()
            },
            Stage::Finished => true,
            _ => {
                &&& self.total == 0
                &&& self.processed == 0
                &&& self.errors.len() == 0
                &&& self.copying_events == 0
            },
        }
        &&& self.files_copied + self.file_errors == self.processed
        &&& self.processed <= self.total
        &&& self.file_errors <= self.errors.len()
        &&& self.copying_events <= self.processed / emit_interval(self.total) + (if self.processed
            == self.total {
            1int
        } else {
            0int
        })
    }

    /// Whether the count of bytes stays within `u64` when `reply` is
    /// taken.
    pub open spec fn fits(self, reply: ReplyView) -> bool {
        self.stage == Stage::CopyFile ==> (reply matches ReplyView::Copied(Ok(bytes))
            ==> self.bytes_copied + bytes <= u64::MAX)
    }
}

/// Whether the entries that `reply` lists, if it lists any, can be
/// counted by the machine, as those that it holds in memory can.
pub open spec fn countable(reply: ReplyView) -> bool {
    reply matches ReplyView::Scanned(entries) ==> entries.len() <= usize::MAX
}

/// An import in progress. Workspace, source and destination are kept
/// in slash form.
pub struct ImportSession {
    pub import_id: String,
    pub os: HostOs,
    pub workspace: String,
    pub source: String,
    /// The destination: of the file, or the root of the copied tree.
    pub dest: String,
    /// The name of the single file.
    pub label: String,
    pub stage: Stage,
    pub files: Vec<ScannedFile>,
    pub dirs: Vec<String>,
    /// The file or directory that the session works on.
    pub index: usize,
    pub total: u64,
    pub processed: u64,
    pub files_copied: u64,
    pub bytes_copied: u64,
    pub errors: Vec<String>,
    /// How many of the errors are failures of files.
    pub file_errors: u64,
    /// How many `copying` events were emitted.
    pub copying_events: u64,
}

impl View for ImportSession {
    type V = SessionView;

    open spec fn view(&self) -> SessionView {
        SessionView {
            import_id: self.import_id@,
            os: self.os,
            workspace: self.workspace@,
            source: self.source@,
            dest: self.dest@,
            label: self.label@,
            stage: self.stage,
            files: files_view(self.files@),
            dirs: texts(self.dirs@),
            index: self.index as int,
            total: self.total,
            processed: self.processed,
            files_copied: self.files_copied,
            bytes_copied: self.bytes_copied,
            errors: texts(self.errors@),
            file_errors: self.file_errors,
            copying_events: self.copying_events,
        }
    }
}

/// The session before anything is known of the destination.
pub open spec fn blank_session(
    source: Seq<char>,
    workspace: Seq<char>,
    import_id: Seq<char>,
    os: HostOs,
) -> SessionView {
    SessionView {
        import_id,
        os,
        workspace: posix_form(workspace, os),
        source: posix_form(source, os),
        dest: Seq::empty(),
        label: Seq::empty(),
        stage: Stage::Finished,
        files: Seq::empty(),
        dirs: Seq::empty(),
        index: 0,
        total: 0,
        processed: 0,
        files_copied: 0,
        bytes_copied: 0,
        errors: Seq::empty(),
        file_errors: 0,
        copying_events: 0,
    }
}

/// The subpath `sub` as it is placed below the workspace of the host
/// `os`: its components, as the host reads them, with one `/` between
/// neighbours.
pub open spec fn placed_subpath(sub: Seq<char>, os: HostOs) -> Seq<char> {
    render(false, components(sub, os == HostOs::Windows))
}

/// The directory under which the source is placed, in slash form: the
/// workspace, or the subpath below it.
pub open spec fn dest_base(workspace: Seq<char>, dest_subpath: Option<Seq<char>>, os: HostOs) -> Seq<
    char,
> {
    match dest_subpath {
        Some(sub) => join_spec(posix_form(workspace, os), placed_subpath(sub, os)),
        None => posix_form(workspace, os),
    }
}

/// How an import begins on the host `os`.
///
/// A subpath that is refused, a source that is neither a file nor a
/// directory, and a source without a name end the import at once with
/// an `error` event. Else the destination is the name of the source
/// below the destination base, and the first request is the check of that
/// destination; a folder import announces itself with a `scanning` event.
pub open spec fn begin_spec(
    source: Seq<char>,
    workspace: Seq<char>,
    dest_subpath: Option<Seq<char>>,
    kind: SourceKind,
    import_id: Seq<char>,
    os: HostOs,
) -> Outcome {
    let blank = blank_session(source, workspace, import_id, os);
    if dest_subpath is Some && subpath_error(dest_subpath->0) is Some {
        blank.fail(subpath_error(dest_subpath->0)->0)
    } else {
        let base = dest_base(workspace, dest_subpath, os);
        match kind {
            SourceKind::File => match file_name_spec(posix_form(source, os)) {
                None => blank.fail("Cannot determine file name"@),
                Some(name) => Outcome {
                    next: SessionView {
                        dest: join_spec(base, name),
                        label: name,
                        stage: Stage::FileCheck,
                        ..blank
                    },
                    events: Seq::empty(),
                    request: RequestView::EnsureWithin {
                        dest: host_form(join_spec(base, name), os),
                    },
                },
            },
            SourceKind::Other => blank.fail(
                "Source is neither a file nor a directory: "@ + source,
            ),
            SourceKind::Directory => match file_name_spec(posix_form(source, os)) {
                None => blank.fail("Cannot determine folder name"@),
                Some(name) => Outcome {
                    next: SessionView {
                        dest: join_spec(base, name),
                        stage: Stage::RootCheck,
                        ..blank
                    },
                    events: seq![blank.event(Seq::empty(), "scanning"@)],
                    request: RequestView::EnsureWithin {
                        dest: host_form(join_spec(base, name), os),
                    },
                },
            },
        }
    }
}

/// What a walk of the source tree holds, as the session keeps it.
struct Sorted {
    files: Vec<ScannedFile>,
    dirs: Vec<String>,
    errors: Vec<String>,
}

/// The regular files, the directories and the errors among `entries`,
/// as the session keeps them.
fn sort_entries(entries: Vec<ScanEntry>, source: &str, os: HostOs) -> (out: Sorted)
    ensures
        files_view(out.files@) == scanned_files(entries_view(entries@), source@, os),
        texts(out.dirs@) == scanned_dirs(entries_view(entries@), source@, os),
        texts(out.errors@) == unnamed_errors(entries_view(entries@), source@, os),
{
    let mut files: Vec<ScannedFile> = Vec::new();
    let mut dirs: Vec<String> = Vec::new();
    let mut errors: Vec<String> = Vec::new();
    let mut i: usize = 0;
    let ghost all = entries_view(entries@);
    assert(files_view(files@) =~= Seq::empty());
    assert(texts(dirs@) =~= Seq::empty());
    assert(texts(errors@) =~= Seq::empty());
    while i < entries.len()
        invariant
            i <= entries.len(),
            all == entries_view(entries@),
            files_view(files@) == scanned_files(all.take(i as int), source@, os),
            texts(dirs@) == scanned_dirs(all.take(i as int), source@, os),
            texts(errors@) == unnamed_errors(all.take(i as int), source@, os),
        decreases entries.len() - i,
    {
        let entry = &entries[i];
        proof {
            assert(all.take(i + 1).drop_last() == all.take(i as int));
            assert(all.take(i + 1).last() == entry@);
        }
        let path = to_posix(entry.path.as_str(), os);
        match entry.kind {
            EntryKind::File => {
                let relative = relative_path(path.as_str(), source);
                let ghost before = files_view(files@);
                files.push(ScannedFile { source: entry.path.clone(), relative });
                assert(files_view(files@) =~= before.push(
                    (entry.path@, relative_of(posix_form(entry.path@, os), source@)),
                ));
            },
            EntryKind::Directory => {
                if !slash_same_path(path.as_str(), source) {
                    let relative = relative_path(path.as_str(), source);
                    push_text(&mut dirs, relative.as_str());
                }
            },
            EntryKind::Unnamed => {
                let relative = relative_path(path.as_str(), source);
                let shown = to_host(relative.as_str(), os);
                let text = concat2(shown.as_str(), ": name is not valid UTF-8");
                push_text(&mut errors, text.as_str());
            },
            _ => {},
        }
        i = i + 1;
    }
    assert(all.take(entries.len() as int) == all);
    Sorted { files, dirs, errors }
}

/// The path of the entry `path` below the source root `source`, both in
/// slash form.
fn relative_path(path: &str, source: &str) -> (out: String)
    ensures
        out@ == relative_of(path@, source@),
{
    match slash_relative_to(path, source) {
        Some(rel) => rel,
        None => path.to_owned(),
    }
}

impl ImportSession {
    /// Ends the import as a whole with `message`.
    fn fail(&mut self, message: String) -> (out: (Vec<ImportProgress>, ImportRequest))
        ensures
            final(self)@ == old(self)@.fail(message@).next,
            events_view(out.0@) == old(self)@.fail(message@).events,
            out.1@ == old(self)@.fail(message@).request,
    {
        self.stage = Stage::Finished;
        let mut events: Vec<ImportProgress> = Vec::new();
        events.push(error_progress(self.import_id.as_str(), message.as_str()));
        assert(events_view(events@) =~= seq![error_event(self.import_id@, message@)]);
        (events, ImportRequest::Finish(Err(message)))
    }

    /// Goes on to `stage` with `request`.
    fn go(&mut self, stage: Stage, request: ImportRequest) -> (out: (
        Vec<ImportProgress>,
        ImportRequest,
    ))
        ensures
            final(self)@ == old(self)@.go(stage, request@).next,
            events_view(out.0@) == old(self)@.go(stage, request@).events,
            out.1@ == request@,
    {
        self.stage = stage;
        let events: Vec<ImportProgress> = Vec::new();
        assert(events_view(events@) =~= Seq::empty());
        (events, request)
    }

    /// Where the relative path `relative` goes, as the host writes it.
    fn place(&self, relative: &str) -> (out: String)
        ensures
            out@ == host_form(join_spec(self.dest@, relative@), self.os),
    {
        let placed = join_paths(self.dest.as_str(), relative);
        to_host(placed.as_str(), self.os)
    }

    /// The result of the session as it stands.
    fn result(&self) -> (out: ImportResult)
        ensures
            out@ == self@.result(),
    {
        ImportResult {
            import_id: self.import_id.clone(),
            files_copied: self.files_copied,
            bytes_copied: self.bytes_copied,
            dest_path: to_host(self.dest.as_str(), self.os),
            errors: clone_texts(&self.errors),
        }
    }

    /// Ends the import well.
    fn finish(&mut self, events: Vec<ImportProgress>) -> (out: (
        Vec<ImportProgress>,
        ImportRequest,
    ))
        ensures
            final(self)@ == old(self)@.finish(events_view(events@)).next,
            events_view(out.0@) == old(self)@.finish(events_view(events@)).events,
            out.1@ == old(self)@.finish(events_view(events@)).request,
    {
        let mut events = events;
        let ghost before = events_view(events@);
        events.push(progress(self.import_id.as_str(), self.processed, self.total, "", "done"));
        proof {
            assert(""@ =~= Seq::<char>::empty()) by {
                reveal_strlit("");
            }
            assert(events_view(events@) =~= before.push(self@.event(Seq::empty(), "done"@)));
        }
        let result = self.result();
        self.stage = Stage::Finished;
        (events, ImportRequest::Finish(Ok(result)))
    }

    /// Turns to directory `j`, or ends the import after the last one.
    fn enter_dirs(&mut self, j: usize, events: Vec<ImportProgress>) -> (out: (
        Vec<ImportProgress>,
        ImportRequest,
    ))
        ensures
            final(self)@ == old(self)@.enter_dirs(j as int, events_view(events@)).next,
            events_view(out.0@) == old(self)@.enter_dirs(j as int, events_view(events@)).events,
            out.1@ == old(self)@.enter_dirs(j as int, events_view(events@)).request,
    {
        if j < self.dirs.len() {
            self.stage = Stage::DirProbe;
            self.index = j;
            let path = self.place(self.dirs[j].as_str());
            (events, ImportRequest::Exists { path })
        } else {
            self.finish(events)
        }
    }

    /// Turns to file `i`, or to the directories after the last file.
    fn enter_files(&mut self, i: usize, events: Vec<ImportProgress>) -> (out: (
        Vec<ImportProgress>,
        ImportRequest,
    ))
        ensures
            final(self)@ == old(self)@.enter_files(i as int, events_view(events@)).next,
            events_view(out.0@) == old(self)@.enter_files(i as int, events_view(events@)).events,
            out.1@ == old(self)@.enter_files(i as int, events_view(events@)).request,
    {
        if i < self.files.len() {
            self.stage = Stage::CopyCheck;
            self.index = i;
            let dest = self.place(self.files[i].relative.as_str());
            (events, ImportRequest::EnsureWithin { dest })
        } else {
            self.enter_dirs(0, events)
        }
    }

    /// Counts the file at hand, copied or failed, and turns to the next.
    fn file_done(&mut self, ended: Result<u64, String>) -> (out: (
        Vec<ImportProgress>,
        ImportRequest,
    ))
        requires
            old(self)@.wf(),
            old(self).stage == Stage::CopyCheck || old(self).stage == Stage::CopyParents || old(
                self,
            ).stage == Stage::CopyFile,
            ended is Ok ==> old(self).bytes_copied + ended->Ok_0 <= u64::MAX,
        ensures
            final(self)@ == old(self)@.file_done(copied_view(ended)).next,
            events_view(out.0@) == old(self)@.file_done(copied_view(ended)).events,
            out.1@ == old(self)@.file_done(copied_view(ended)).request,
    {
        match ended {
            Ok(bytes) => {
                self.files_copied = self.files_copied + 1;
                self.bytes_copied = self.bytes_copied + bytes;
            },
            Err(e) => {
                let shown = to_host(self.files[self.index].relative.as_str(), self.os);
                let text = concat3(shown.as_str(), ": ", e.as_str());
                push_text(&mut self.errors, text.as_str());
                self.file_errors = self.file_errors + 1;
            },
        }
        self.processed = self.processed + 1;
        let interval: u64 = if self.total > 1000 {
            10
        } else {
            1
        };
        let mut events: Vec<ImportProgress> = Vec::new();
        assert(events_view(events@) =~= Seq::empty());
        if self.processed % interval == 0 || self.processed == self.total {
            let shown = to_host(self.files[self.index].relative.as_str(), self.os);
            events.push(
                progress(
                    self.import_id.as_str(),
                    self.processed,
                    self.total,
                    shown.as_str(),
                    "copying",
                ),
            );
            assert(events_view(events@) =~= seq![self@.event(self@.shown_file(), "copying"@)]);
            self.copying_events = self.copying_events + 1;
        }
        self.enter_files(self.index + 1, events)
    }

    /// Records that the directory at hand failed.
    fn dir_failed(&mut self, message: String) -> (out: (Vec<ImportProgress>, ImportRequest))
        requires
            old(self)@.wf(),
            old(self).stage == Stage::DirCheck || old(self).stage == Stage::DirCreate,
        ensures
            final(self)@ == old(self)@.dir_failed(message@).next,
            events_view(out.0@) == old(self)@.dir_failed(message@).events,
            out.1@ == old(self)@.dir_failed(message@).request,
    {
        let shown = to_host(self.dirs[self.index].as_str(), self.os);
        let text = concat4("dir ", shown.as_str(), ": ", message.as_str());
        push_text(&mut self.errors, text.as_str());
        let events: Vec<ImportProgress> = Vec::new();
        assert(events_view(events@) =~= Seq::empty());
        self.enter_dirs(self.index + 1, events)
    }

    /// Begins the import of `source` into `workspace` on the host `os`,
    /// below `dest_subpath` where one is given. `kind` says what the
    /// source is.
    ///
    /// Nothing has been written when this returns: the first request is
    /// the check of the destination, or `Finish` with the error.
    pub fn begin(
        source: &str,
        workspace: &str,
        dest_subpath: Option<&str>,
        kind: SourceKind,
        import_id: &str,
        os: HostOs,
    ) -> (out: (ImportSession, Vec<ImportProgress>, ImportRequest))
        ensures
            out.0@ == begin_spec(
                source@,
                workspace@,
                subpath_view(dest_subpath),
                kind,
                import_id@,
                os,
            ).next,
            events_view(out.1@) == begin_spec(
                source@,
                workspace@,
                subpath_view(dest_subpath),
                kind,
                import_id@,
                os,
            ).events,
            out.2@ == begin_spec(
                source@,
                workspace@,
                subpath_view(dest_subpath),
                kind,
                import_id@,
                os,
            ).request,
            out.0@.wf(),
    {
        proof {
            lemma_begin_wf(source@, workspace@, subpath_view(dest_subpath), kind, import_id@, os);
        }
        let workspace_slash = to_posix(workspace, os);
        let source_slash = to_posix(source, os);
        let mut session = ImportSession {
            import_id: import_id.to_owned(),
            os,
            workspace: workspace_slash.clone(),
            source: source_slash.clone(),
            dest: String::new(),
            label: String::new(),
            stage: Stage::Finished,
            files: Vec::new(),
            dirs: Vec::new(),
            index: 0,
            total: 0,
            processed: 0,
            files_copied: 0,
            bytes_copied: 0,
            errors: Vec::new(),
            file_errors: 0,
            copying_events: 0,
        };
        proof {
            assert(files_view(session.files@) =~= Seq::empty());
            assert(texts(session.dirs@) =~= Seq::empty());
            assert(texts(session.errors@) =~= Seq::empty());
            assert(session@ =~= blank_session(source@, workspace@, import_id@, os));
        }
        let base = match dest_subpath {
            Some(sub) => match validate_subpath(sub) {
                Err(e) => {
                    let (events, request) = session.fail(e);
                    return (session, events, request);
                },
                Ok(_) => {
                    let wide = match os {
                        HostOs::Windows => true,
                        _ => false,
                    };
                    let chars = chars_of(sub);
                    let parts = split_components(&chars, wide);
                    let placed = render_path(false, &parts, parts.len());
                    proof {
                        let all = parts_view(parts@);
                        assert(all.take(all.len() as int) == all);
                    }
                    let below = string_of(&placed);
                    join_paths(workspace_slash.as_str(), below.as_str())
                },
            },
            None => workspace_slash,
        };
        match kind {
            SourceKind::File => match slash_file_name(source_slash.as_str()) {
                None => {
                    let (events, request) = session.fail("Cannot determine file name".to_owned());
                    (session, events, request)
                },
                Some(name) => {
                    let dest = join_paths(base.as_str(), name.as_str());
                    let asked = to_host(dest.as_str(), os);
                    session.dest = dest;
                    session.label = name;
                    let (events, request) = session.go(
                        Stage::FileCheck,
                        ImportRequest::EnsureWithin { dest: asked },
                    );
                    (session, events, request)
                },
            },
            SourceKind::Other => {
                let (events, request) = session.fail(
                    concat2("Source is neither a file nor a directory: ", source),
                );
                (session, events, request)
            },
            SourceKind::Directory => match slash_file_name(source_slash.as_str()) {
                None => {
                    let (events, request) = session.fail("Cannot determine folder name".to_owned());
                    (session, events, request)
                },
                Some(name) => {
                    let dest = join_paths(base.as_str(), name.as_str());
                    let asked = to_host(dest.as_str(), os);
                    session.dest = dest;
                    session.stage = Stage::RootCheck;
                    let mut events: Vec<ImportProgress> = Vec::new();
                    events.push(progress(import_id, 0, 0, "", "scanning"));
                    proof {
                        assert(""@ =~= Seq::<char>::empty()) by {
                            reveal_strlit("");
                        }
                        assert(events_view(events@) =~= seq![
                            blank_session(source@, workspace@, import_id@, os).event(
                                Seq::empty(),
                                "scanning"@,
                            ),
                        ]);
                    }
                    (session, events, ImportRequest::EnsureWithin { dest: asked })
                },
            },
        }
    }

    /// Takes the reply to the request at hand; gives the events to emit
    /// and the next request.
    pub fn step(&mut self, reply: ImportReply) -> (out: (Vec<ImportProgress>, ImportRequest))
        requires
            old(self)@.wf(),
            old(self)@.fits(reply@),
        ensures
            final(self)@ == old(self)@.step(reply@).next,
            events_view(out.0@) == old(self)@.step(reply@).events,
            out.1@ == old(self)@.step(reply@).request,
            final(self)@.wf(),
    {
        proof {
            if reply is Scanned {
                assert(entries_view(reply->Scanned_0@).len() == reply->Scanned_0.len());
            }
            lemma_step_keeps_wf(self@, reply@);
        }
        match (self.stage, reply) {
            (Stage::FileCheck, ImportReply::Checked(Ok(_))) => {
                let dest = to_host(self.dest.as_str(), self.os);
                self.go(Stage::FileParents, ImportRequest::CreateParentDirs { dest })
            },
            (Stage::FileCheck, ImportReply::Checked(Err(e))) => self.fail(e),
            (Stage::FileParents, ImportReply::Created(Ok(_))) => {
                let source = to_host(self.source.as_str(), self.os);
                let dest = to_host(self.dest.as_str(), self.os);
                self.go(Stage::FileCopy, ImportRequest::CopyFile { source, dest })
            },
            (Stage::FileParents, ImportReply::Created(Err(e))) => self.fail(e),
            (Stage::FileCopy, ImportReply::Copied(Ok(bytes))) => {
                self.stage = Stage::Finished;
                self.total = 1;
                self.processed = 1;
                self.files_copied = 1;
                self.bytes_copied = bytes;
                let mut events: Vec<ImportProgress> = Vec::new();
                events.push(
                    progress(self.import_id.as_str(), 1, 1, self.label.as_str(), "done"),
                );
                assert(events_view(events@) =~= seq![self@.event(self@.label, "done"@)]);
                let result = self.result();
                (events, ImportRequest::Finish(Ok(result)))
            },
            (Stage::FileCopy, ImportReply::Copied(Err(e))) => self.fail(e),
            (Stage::RootCheck, ImportReply::Checked(Ok(_))) => {
                let dir = to_host(self.dest.as_str(), self.os);
                self.go(Stage::RootCreate, ImportRequest::CreateDir { dir })
            },
            (Stage::RootCheck, ImportReply::Checked(Err(e))) => self.fail(e),
            (Stage::RootCreate, ImportReply::Created(Ok(_))) => {
                let source = to_host(self.source.as_str(), self.os);
                self.go(Stage::Scan, ImportRequest::Scan { source })
            },
            (Stage::RootCreate, ImportReply::Created(Err(e))) => self.fail(e),
            (Stage::Scan, ImportReply::Scanned(entries)) => {
                let sorted = sort_entries(entries, self.source.as_str(), self.os);
                self.total = sorted.files.len() as u64;
                self.files = sorted.files;
                self.dirs = sorted.dirs;
                self.errors = sorted.errors;
                let events: Vec<ImportProgress> = Vec::new();
                assert(events_view(events@) =~= Seq::empty());
                self.enter_files(0, events)
            },
            (Stage::CopyCheck, ImportReply::Checked(Ok(_))) => {
                let dest = self.place(self.files[self.index].relative.as_str());
                self.go(Stage::CopyParents, ImportRequest::CreateParentDirs { dest })
            },
            (Stage::CopyCheck, ImportReply::Checked(Err(e))) => self.file_done(Err(e)),
            (Stage::CopyParents, ImportReply::Created(Ok(_))) => {
                let source = self.files[self.index].source.clone();
                let dest = self.place(self.files[self.index].relative.as_str());
                self.go(Stage::CopyFile, ImportRequest::CopyFile { source, dest })
            },
            (Stage::CopyParents, ImportReply::Created(Err(e))) => self.file_done(Err(e)),
            (Stage::CopyFile, ImportReply::Copied(copied)) => self.file_done(copied),
            (Stage::DirProbe, ImportReply::Exists(true)) => {
                let events: Vec<ImportProgress> = Vec::new();
                assert(events_view(events@) =~= Seq::empty());
                self.enter_dirs(self.index + 1, events)
            },
            (Stage::DirProbe, ImportReply::Exists(false)) => {
                let dest = self.place(self.dirs[self.index].as_str());
                self.go(Stage::DirCheck, ImportRequest::EnsureWithin { dest })
            },
            (Stage::DirCheck, ImportReply::Checked(Ok(_))) => {
                let dir = self.place(self.dirs[self.index].as_str());
                self.go(Stage::DirCreate, ImportRequest::CreateDir { dir })
            },
            (Stage::DirCheck, ImportReply::Checked(Err(e))) => self.dir_failed(e),
            (Stage::DirCreate, ImportReply::Created(Ok(_))) => {
                let events: Vec<ImportProgress> = Vec::new();
                assert(events_view(events@) =~= Seq::empty());
                self.enter_dirs(self.index + 1, events)
            },
            (Stage::DirCreate, ImportReply::Created(Err(e))) => self.dir_failed(e),
            _ => self.fail("Unexpected reply".to_owned()),
        }
    }
}

/// The view of what a copy returned.
pub open spec fn copied_view(copied: Result<u64, String>) -> Result<u64, Seq<char>> {
    match copied {
        Ok(n) => Ok(n),
        Err(e) => Err(e@),
    }
}

/// The view of a subpath that may be absent.
pub open spec fn subpath_view(sub: Option<&str>) -> Option<Seq<char>> {
    match sub {
        Some(s) => Some(s@),
        None => None,
    }
}

/// Every step keeps a well-formed session well-formed.
pub proof fn lemma_step_keeps_wf(v: SessionView, reply: ReplyView)
    requires
        v.wf(),
        v.fits(reply),
        countable(reply),
    ensures
        v.step(reply).next.wf(),
{
    match (v.stage, reply) {
        (Stage::CopyFile, ReplyView::Copied(_)) => {
            lemma_interval_bound(v.processed, v.total);
        },
        (Stage::CopyCheck, ReplyView::Checked(Err(_))) => {
            lemma_interval_bound(v.processed, v.total);
        },
        (Stage::CopyParents, ReplyView::Created(Err(_))) => {
            lemma_interval_bound(v.processed, v.total);
        },
        (Stage::Scan, ReplyView::Scanned(entries)) => {
            lemma_scanned_len(entries, v.source, v.os);
        },
        _ => {},
    }
}

/// A walk gives no more files and no more directories than entries.
pub proof fn lemma_scanned_len(entries: Seq<ScanEntryView>, source: Seq<char>, os: HostOs)
    ensures
        scanned_files(entries, source, os).len() <= entries.len(),
        scanned_dirs(entries, source, os).len() <= entries.len(),
    decreases entries.len(),
{
    if entries.len() > 0 {
        lemma_scanned_len(entries.drop_last(), source, os);
    }
}

/// One more processed file allows one more `copying` event where one is
/// due.
proof fn lemma_interval_bound(processed: u64, total: u64)
    requires
        processed < total,
    ensures
        (processed + 1) / (emit_interval(total) as int) >= processed / emit_interval(total),
        (processed + 1) % (emit_interval(total) as int) == 0 ==> (processed + 1) / (emit_interval(
            total,
        ) as int) == processed / emit_interval(total) + 1,
{
    if total > 1000 {
        assert((processed + 1) / 10 >= processed / 10);
        assert((processed + 1) % 10 == 0 ==> (processed + 1) / 10 == processed / 10 + 1);
    } else {
        assert((processed + 1) / 1 == processed / 1 + 1);
    }
}

/// An import begins with a well-formed session.
pub proof fn lemma_begin_wf(
    source: Seq<char>,
    workspace: Seq<char>,
    dest_subpath: Option<Seq<char>>,
    kind: SourceKind,
    import_id: Seq<char>,
    os: HostOs,
)
    ensures
        begin_spec(source, workspace, dest_subpath, kind, import_id, os).next.wf(),
{
}

/// The request that a session waits on, by its stage; none once the
/// import is over.
pub open spec fn pending(v: SessionView) -> Option<RequestView> {
    match v.stage {
        Stage::FileCheck | Stage::RootCheck => Some(
            RequestView::EnsureWithin { dest: v.dest_host() },
        ),
        Stage::FileParents => Some(RequestView::CreateParentDirs { dest: v.dest_host() }),
        Stage::FileCopy => Some(
            RequestView::CopyFile { source: v.source_host(), dest: v.dest_host() },
        ),
        Stage::RootCreate => Some(RequestView::CreateDir { dir: v.dest_host() }),
        Stage::Scan => Some(RequestView::Scan { source: v.source_host() }),
        Stage::CopyCheck => Some(RequestView::EnsureWithin { dest: v.file_dest(v.index) }),
        Stage::CopyParents => Some(RequestView::CreateParentDirs { dest: v.file_dest(v.index) }),
        Stage::CopyFile => Some(
            RequestView::CopyFile { source: v.files[v.index].0, dest: v.file_dest(v.index) },
        ),
        Stage::DirProbe => Some(RequestView::Exists { path: v.dir_dest(v.index) }),
        Stage::DirCheck => Some(RequestView::EnsureWithin { dest: v.dir_dest(v.index) }),
        Stage::DirCreate => Some(RequestView::CreateDir { dir: v.dir_dest(v.index) }),
        Stage::Finished => None,
    }
}

/// Whether `reply` reports that a check or a creation succeeded.
pub open spec fn granted(reply: ReplyView) -> bool {
    match reply {
        ReplyView::Checked(Ok(_)) => true,
        ReplyView::Created(Ok(_)) => true,
        _ => false,
    }
}

/// Whether `request` asks for something to be written.
pub open spec fn writes(request: RequestView) -> bool {
    request is CreateParentDirs || request is CreateDir || request is CopyFile
}

/// The request that a step gives is the one that the session then
/// waits on, and `Finish` is given exactly when the import is over.
pub proof fn law_request_is_pending(v: SessionView, reply: ReplyView)
    requires
        v.wf(),
    ensures
        v.step(reply).request is Finish <==> v.step(reply).next.stage == Stage::Finished,
        !(v.step(reply).request is Finish) ==> pending(v.step(reply).next) == Some(
            v.step(reply).request,
        ),
{
}

/// An import begins with the check of its destination or ends at once
/// with an error and an `error` event: its first request writes
/// nothing.
pub proof fn law_begin_writes_nothing(
    source: Seq<char>,
    workspace: Seq<char>,
    dest_subpath: Option<Seq<char>>,
    kind: SourceKind,
    import_id: Seq<char>,
    os: HostOs,
)
    ensures
        ({
            let first = begin_spec(source, workspace, dest_subpath, kind, import_id, os);
            &&& !writes(first.request)
            &&& first.request is Finish || first.request is EnsureWithin
            &&& !(first.request is Finish) ==> pending(first.next) == Some(first.request)
            &&& dest_subpath is Some && subpath_error(dest_subpath->0) is Some
                ==> first.request == RequestView::Finish(Err(subpath_error(dest_subpath->0)->0))
            &&& first.request is Finish ==> first.request->Finish_0 is Err && first.events.len()
                == 1 && first.events[0].phase == "error"@
        }),
{
}

/// Nothing is written to a destination that was not checked first.
///
/// A step asks to create a directory only in answer to a containment
/// check of that very path that succeeded, and asks to copy a file only
/// in answer to the creation of the parents of that very destination
/// having been accepted. So a destination whose check fails, as one
/// that runs through a link out of the workspace does, is never
/// written to.
pub proof fn law_writes_follow_checks(v: SessionView, reply: ReplyView)
    requires
        v.wf(),
    ensures
        (match v.step(reply).request {
            RequestView::CreateDir { dir } => granted(reply) && reply is Checked && pending(v)
                == Some(RequestView::EnsureWithin { dest: dir }),
            RequestView::CreateParentDirs { dest } => granted(reply) && reply is Checked
                && pending(v) == Some(RequestView::EnsureWithin { dest }),
            RequestView::CopyFile { source, dest } => granted(reply) && reply is Created
                && pending(v) == Some(RequestView::CreateParentDirs { dest }),
            _ => true,
        }),
        reply matches ReplyView::Checked(Err(_)) ==> !writes(v.step(reply).request),
{
}

/// A failure of the destination of a single file or of the root of a
/// folder ends the import with that error; a failure of one file or
/// directory of a folder does not.
pub proof fn law_failure_policy(v: SessionView, reply: ReplyView, e: Seq<char>)
    requires
        v.wf(),
        reply == ReplyView::Checked(Err(e)) || reply == ReplyView::Created(Err(e)) || reply
            == ReplyView::Copied(Err(e)),
        pending(v) is Some,
        reply is Checked == (pending(v)->0 is EnsureWithin),
        reply is Created == (pending(v)->0 is CreateDir || pending(v)->0 is CreateParentDirs),
        reply is Copied == (pending(v)->0 is CopyFile),
    ensures
        v.stage == Stage::FileCheck || v.stage == Stage::FileParents || v.stage == Stage::FileCopy
            || v.stage == Stage::RootCheck || v.stage == Stage::RootCreate ==> v.step(
            reply,
        ).request == RequestView::Finish(Err(e)),
        v.stage == Stage::CopyCheck || v.stage == Stage::CopyParents || v.stage == Stage::CopyFile
            || v.stage == Stage::DirCheck || v.stage == Stage::DirCreate ==> ({
            &&& !(v.step(reply).request matches RequestView::Finish(Err(_)))
            &&& v.step(reply).next.errors.len() == v.errors.len() + 1
        }),
{
}

/// When an import ends well, every file was processed, and each
/// processed file was either copied or left an error.
pub proof fn law_files_accounted(v: SessionView, reply: ReplyView)
    requires
        v.wf(),
        v.fits(reply),
        countable(reply),
    ensures
        v.step(reply).request matches RequestView::Finish(Ok(result)) ==> ({
            let last = v.step(reply).next;
            &&& result.files_copied + last.file_errors == last.processed
            &&& last.processed == last.total
            &&& last.file_errors <= result.errors.len()
        }),
{
    lemma_step_keeps_wf(v, reply);
}

/// The count of processed files never falls, no step adds more than
/// one to it, and once the source tree is walked the total stays as it is.
pub proof fn law_progress_monotone(v: SessionView, reply: ReplyView)
    requires
        v.wf(),
        v.fits(reply),
        countable(reply),
    ensures
        v.step(reply).next.processed >= v.processed,
        v.step(reply).next.processed <= v.processed + 1,
        v.stage != Stage::Scan && v.stage != Stage::FileCopy ==> v.step(reply).next.total
            == v.total,
        forall|i: int|
            0 <= i < v.step(reply).events.len() && #[trigger] v.step(reply).events[i].phase
                != "error"@ ==> v.step(reply).events[i].processed == v.step(reply).next.processed
                && v.step(reply).events[i].total == v.step(reply).next.total,
{
    lemma_step_keeps_wf(v, reply);
}

/// How many of `events` are of phase `copying`.
pub open spec fn copying_count(events: Seq<ImportProgressView>) -> nat
    decreases events.len(),
{
    if events.len() == 0 {
        0
    } else {
        copying_count(events.drop_last()) + if events.last().phase == "copying"@ {
            1nat
        } else {
            0nat
        }
    }
}

/// The session counts every `copying` event that it emits, and for an
/// import of `total` files it emits at most one for every ten files
/// begun and one more, once there are more than a thousand.
pub proof fn law_copying_events_bounded(v: SessionView, reply: ReplyView)
    requires
        v.wf(),
        v.fits(reply),
        countable(reply),
    ensures
        v.step(reply).next.copying_events == v.copying_events + copying_count(
            v.step(reply).events,
        ),
        v.step(reply).next.total > 1000 ==> v.step(reply).next.copying_events <= (v.step(
            reply,
        ).next.total + 9) / 10 + 1,
{
    lemma_step_keeps_wf(v, reply);
    reveal_strlit("copying");
    reveal_strlit("done");
    reveal_strlit("error");
    reveal_strlit("scanning");
    let out = v.step(reply);
    let events = out.events;
    assert("copying"@.len() == 7 && "done"@.len() == 4 && "error"@.len() == 5);
    assert(copying_count(Seq::<ImportProgressView>::empty()) == 0);
    if events.len() == 1 {
        assert(events.drop_last() =~= Seq::empty());
        assert(copying_count(events) == if events[0].phase == "copying"@ {
            1nat
        } else {
            0nat
        });
    } else if events.len() == 2 {
        let head = events.drop_last();
        assert(head.drop_last() =~= Seq::empty());
        assert(copying_count(head) == if events[0].phase == "copying"@ {
            1nat
        } else {
            0nat
        });
        assert(copying_count(events) == copying_count(head) + if events[1].phase == "copying"@ {
            1nat
        } else {
            0nat
        });
    } else {
        assert(events.len() == 0);
    }
    let last = out.next;
    if last.total > 1000 {
        assert(emit_interval(last.total) == 10);
        assert(last.processed / 10 <= last.total / 10);
        assert(last.total / 10 <= (last.total + 9) / 10);
    }
}

/// How many `copying` events are due by the time `processed` of
/// `total` files are handled: one for each file up to a thousand files;
/// beyond, one for every tenth file, and one for the last file where
/// the total is no multiple of ten.
pub open spec fn copying_events_due(processed: u64, total: u64) -> int {
    processed / emit_interval(total) + (if processed == total && total % emit_interval(total)
        != 0 {
        1int
    } else {
        0int
    })
}

/// Whether the session has emitted exactly the `copying` events that
/// were due, while it copies files or makes directories.
pub open spec fn events_exact(v: SessionView) -> bool {
    v.stage == Stage::CopyCheck || v.stage == Stage::CopyParents || v.stage == Stage::CopyFile
        || v.stage == Stage::DirProbe || v.stage == Stage::DirCheck || v.stage
        == Stage::DirCreate ==> v.copying_events == copying_events_due(v.processed, v.total)
}

/// A folder import emits exactly the `copying` events that are due:
/// the count is exact when the files are listed, stays exact at every
/// step, and is exact in the end.
pub proof fn law_copying_events_exact(v: SessionView, reply: ReplyView)
    requires
        v.wf(),
        v.fits(reply),
        countable(reply),
        events_exact(v),
        v.stage != Stage::FileCheck && v.stage != Stage::FileParents && v.stage
            != Stage::FileCopy && v.stage != Stage::Finished,
    ensures
        events_exact(v.step(reply).next),
        v.step(reply).request matches RequestView::Finish(Ok(_)) ==> v.step(
            reply,
        ).next.copying_events == copying_events_due(
            v.step(reply).next.processed,
            v.step(reply).next.total,
        ),
{
    lemma_step_keeps_wf(v, reply);
    let next = v.step(reply).next;
    match (v.stage, reply) {
        (Stage::CopyFile, ReplyView::Copied(_)) => {
            lemma_interval_exact(v.processed, v.total);
        },
        (Stage::CopyCheck, ReplyView::Checked(Err(_))) => {
            lemma_interval_exact(v.processed, v.total);
        },
        (Stage::CopyParents, ReplyView::Created(Err(_))) => {
            lemma_interval_exact(v.processed, v.total);
        },
        (Stage::Scan, ReplyView::Scanned(entries)) => {
            lemma_scanned_len(entries, v.source, v.os);
            if next.total > 1000 {
                assert(0int / 10 == 0);
            }
        },
        _ => {},
    }
}

/// The events due after one more file are those due before, and one
/// more where the file is a tenth, or the last, or the files are few.
proof fn lemma_interval_exact(processed: u64, total: u64)
    requires
        processed < total,
    ensures
        copying_events_due((processed + 1) as u64, total) == copying_events_due(processed, total)
            + (if copying_due((processed + 1) as u64, total) {
            1int
        } else {
            0int
        }),
{
    if total > 1000 {
        let p = processed as int;
        assert((p + 1) % 10 == 0 ==> (p + 1) / 10 == p / 10 + 1);
        assert((p + 1) % 10 != 0 ==> (p + 1) / 10 == p / 10);
        assert(p + 1 == total && total % 10 == 0 ==> (p + 1) % 10 == 0);
    } else {
        assert((processed + 1) / 1 == processed / 1 + 1);
        assert(total % 1 == 0);
    }
}

/// The destination of an import lies at or below the workspace, as the
/// host reads both: it has the components of the workspace, then those
/// of the subpath, then the name of the source, and none of those that
/// follow the workspace is `..`.
pub proof fn law_destination_below_workspace(
    source: Seq<char>,
    workspace: Seq<char>,
    dest_subpath: Option<Seq<char>>,
    kind: SourceKind,
    import_id: Seq<char>,
    os: HostOs,
)
    ensures
        ({
            let first = begin_spec(source, workspace, dest_subpath, kind, import_id, os);
            let root = posix_form(workspace, os);
            first.request matches RequestView::EnsureWithin { dest } ==> ({
                &&& dest == host_form(first.next.dest, os)
                &&& starts_with_spec(first.next.dest, root)
                &&& !components(first.next.dest, false).skip(
                    components(root, false).len() as int,
                ).contains(dotdot())
            })
        }),
{
    let first = begin_spec(source, workspace, dest_subpath, kind, import_id, os);
    let w = posix_form(workspace, os);
    let wide = os == HostOs::Windows;
    if first.request is EnsureWithin {
        let src = posix_form(source, os);
        let name = file_name_spec(src)->0;
        law_components_are_plain(src, false);
        let parts = components(src, false);
        assert(plain(parts.last()));
        lemma_components_of_plain(name);
        let base = dest_base(workspace, dest_subpath, os);
        let below = match dest_subpath {
            Some(sub) => components(sub, wide),
            None => Seq::empty(),
        };
        assert(components(base, false) == components(w, false) + below && starts_with_spec(
            base,
            w,
        )) by {
            match dest_subpath {
                Some(sub) => {
                    law_accepted_subpath_stays_below(w, sub, wide);
                },
                None => {
                    assert(components(w, false) + below =~= components(w, false));
                    assert(components(w, false).subrange(0, components(w, false).len() as int)
                        =~= components(w, false));
                },
            }
        }
        law_join_stays_below(base, name);
        let dest = join_spec(base, name);
        let root = components(w, false);
        let rest = below + seq![name];
        assert(components(dest, false) =~= root + rest);
        assert((root + rest).subrange(0, root.len() as int) =~= root);
        assert((root + rest).skip(root.len() as int) =~= rest);
        if base.len() > 0 {
            assert(dest[0] == base[0]);
        }
        match dest_subpath {
            Some(sub) => {
                law_accepted_subpath_stays_below(w, sub, wide);
            },
            None => {},
        }
        assert(!rest.contains(dotdot())) by {
            if rest.contains(dotdot()) {
                let k = choose|k: int| 0 <= k < rest.len() && rest[k] == dotdot();
                if k < below.len() {
                    assert(below[k] == dotdot());
                    assert(below.contains(dotdot()));
                }
            }
        }
    }
}

/// An import that begins emits no `copying` event.
pub proof fn law_begin_emits_no_copying(
    source: Seq<char>,
    workspace: Seq<char>,
    dest_subpath: Option<Seq<char>>,
    kind: SourceKind,
    import_id: Seq<char>,
    os: HostOs,
)
    ensures
        copying_count(begin_spec(source, workspace, dest_subpath, kind, import_id, os).events) == 0,
        begin_spec(source, workspace, dest_subpath, kind, import_id, os).next.copying_events == 0,
{
    reveal_strlit("copying");
    reveal_strlit("error");
    reveal_strlit("scanning");
    let out = begin_spec(source, workspace, dest_subpath, kind, import_id, os);
    assert("copying"@.len() == 7 && "scanning"@.len() == 8 && "error"@.len() == 5);
    assert(copying_count(Seq::<ImportProgressView>::empty()) == 0);
    if out.events.len() == 1 {
        assert(out.events.drop_last() =~= Seq::empty());
    }
}

/// A source tree with no file, no directory and no entry without a
/// name below its root gives one `done` event with a total of zero,
/// and a result with nothing copied and no error.
pub proof fn law_empty_source(v: SessionView, entries: Seq<ScanEntryView>)
    requires
        v.wf(),
        v.stage == Stage::Scan,
        scanned_files(entries, v.source, v.os).len() == 0,
        scanned_dirs(entries, v.source, v.os).len() == 0,
        unnamed_errors(entries, v.source, v.os).len() == 0,
    ensures
        v.step(ReplyView::Scanned(entries)).events == seq![
            (ImportProgressView {
                import_id: v.import_id,
                processed: 0,
                total: 0,
                current_file: Seq::empty(),
                phase: "done"@,
            }),
        ],
        v.step(ReplyView::Scanned(entries)).request matches RequestView::Finish(Ok(result))
            && result.files_copied == 0 && result.errors.len() == 0 && result.dest_path
            == v.dest_host(),
{
    let out = v.step(ReplyView::Scanned(entries));
    assert(out.events =~= seq![
        ImportProgressView {
            import_id: v.import_id,
            processed: 0,
            total: 0,
            current_file: Seq::empty(),
            phase: "done"@,
        },
    ]);
}

/// The last event of an import is `done` where it ends well and `error`
/// where it fails.
pub proof fn law_final_event(v: SessionView, reply: ReplyView)
    requires
        v.wf(),
    ensures
        v.step(reply).request matches RequestView::Finish(Ok(_)) ==> v.step(reply).events.len() > 0
            && v.step(reply).events.last().phase == "done"@,
        v.step(reply).request matches RequestView::Finish(Err(_)) ==> v.step(reply).events.len()
            > 0 && v.step(reply).events.last().phase == "error"@,
{
}

/// Why an import is refused before it begins, if it is: the workspace
/// is not configured or does not exist, the source does not exist, or
/// the subpath is refused.
pub open spec fn precondition_error(
    workspace: Seq<char>,
    workspace_exists: bool,
    source_path: Seq<char>,
    source_exists: bool,
    dest_subpath: Option<Seq<char>>,
) -> Option<Seq<char>> {
    if workspace.len() == 0 {
        Some("Workspace path not configured"@)
    } else if !workspace_exists {
        Some("Workspace directory does not exist: "@ + workspace)
    } else if !source_exists {
        Some("Source not found: "@ + source_path)
    } else if dest_subpath is Some {
        subpath_error(dest_subpath->0)
    } else {
        None
    }
}

/// Begins the import of `source_path` into the workspace of `state` on
/// the host `os`.
///
/// `workspace_exists` and `source_exists` say what was found on disk,
/// and `source_kind` what the source is. Where a precondition fails
/// the error is returned and no session exists, so nothing can have been
/// written. Else the session is the one that `ImportSession::begin` gives.
pub fn import_folder(
    state: &WorkspaceState,
    workspace_exists: bool,
    source_path: &str,
    source_exists: bool,
    source_kind: SourceKind,
    dest_subpath: Option<&str>,
    import_id: &str,
    os: HostOs,
) -> (out: Result<(ImportSession, Vec<ImportProgress>, ImportRequest), String>)
    ensures
        out is Err == precondition_error(
            state.workspace_path@,
            workspace_exists,
            source_path@,
            source_exists,
            subpath_view(dest_subpath),
        ) is Some,
        out is Err ==> out->Err_0@ == precondition_error(
            state.workspace_path@,
            workspace_exists,
            source_path@,
            source_exists,
            subpath_view(dest_subpath),
        )->0,
        out is Ok ==> ({
            let first = begin_spec(
                source_path@,
                state.workspace_path@,
                subpath_view(dest_subpath),
                source_kind,
                import_id@,
                os,
            );
            &&& out->Ok_0.0@ == first.next
            &&& events_view(out->Ok_0.1@) == first.events
            &&& out->Ok_0.2@ == first.request
            &&& out->Ok_0.0@.wf()
        }),
{
    let workspace = state.workspace_path.as_str();
    if workspace.is_empty() {
        return Err("Workspace path not configured".to_owned());
    }
    if !workspace_exists {
        return Err(concat2("Workspace directory does not exist: ", workspace));
    }
    if !source_exists {
        return Err(concat2("Source not found: ", source_path));
    }
    match dest_subpath {
        Some(sub) => match validate_subpath(sub) {
            Err(e) => {
                return Err(e);
            },
            Ok(_) => {},
        },
        None => {},
    }
    Ok(ImportSession::begin(source_path, workspace, dest_subpath, source_kind, import_id, os))
}

/// The identifier of an import: the process and the time in
/// milliseconds at which it began, in decimal, with `-` between.
pub fn import_id(process: u32, millis: u64) -> (out: String)
    ensures
        out@ == decimal(process as nat) + "-"@ + decimal(millis as nat),
{
    let p = decimal_string(process as u64);
    let m = decimal_string(millis);
    concat3(p.as_str(), "-", m.as_str())
}

/// The time `secs`, in seconds since the epoch, as it is written in
/// the log: in decimal, followed by `s`.
pub fn chrono_now(secs: u64) -> (out: String)
    ensures
        out@ == decimal(secs as nat) + "s"@,
{
    let text = decimal_string(secs);
    concat2(text.as_str(), "s")
}

} // verus!
