//! Importing folders into the workspace: the check of a subpath, the
//! walk that checks a destination, and the judgement of a directory
//! that was created.
//!
//! The paths of a host are read as that host reads them: the functions
//! that compare paths take the host, and what they hand out is written
//! as the host writes it.

use vstd::prelude::*;
use crate::path::{
    components, dotdot, host_form, is_parent_component, is_rooted, is_sep, join_paths, join_spec,
    parts_prefix, parts_view, posix_form, render, render_path, skip_parts,
    slash_starts_with, split_components, starts_at_root, starts_with_spec, strip_prefix_spec,
    to_host, to_posix,
};
use crate::vm::HostOs;
use crate::path_laws::{
    all_plain, law_components_are_plain, law_join_stays_below, lemma_components_of_plain, plain,
};
use crate::path::path_starts_with;
use crate::text::{chars_of, concat2, concat4, opt_text, string_of, texts};

verus! {

/// The name of the channel that carries the progress of imports.
pub const IMPORT_PROGRESS_EVENT: &'static str = "folder-import-progress";

/// The directory under which every imported file must land.
pub struct WorkspaceState {
    pub workspace_path: String,
}

/// The workspace directory and whether it exists.
pub struct WorkspaceInfo {
    pub path: String,
    pub exists: bool,
}

/// What an import did.
pub struct ImportResult {
    pub import_id: String,
    /// The files that were copied; failures are not counted.
    pub files_copied: u64,
    pub bytes_copied: u64,
    pub dest_path: String,
    /// One text for each entry that failed.
    pub errors: Vec<String>,
}

/// An `ImportResult` as a plain value.
pub struct ImportResultView {
    pub import_id: Seq<char>,
    pub files_copied: u64,
    pub bytes_copied: u64,
    pub dest_path: Seq<char>,
    pub errors: Seq<Seq<char>>,
}

impl View for ImportResult {
    type V = ImportResultView;

    open spec fn view(&self) -> ImportResultView {
        ImportResultView {
            import_id: self.import_id@,
            files_copied: self.files_copied,
            bytes_copied: self.bytes_copied,
            dest_path: self.dest_path@,
            errors: texts(self.errors@),
        }
    }
}

/// One progress event of an import. The phase is one of `scanning`,
/// `copying`, `done` and `error`.
pub struct ImportProgress {
    pub import_id: String,
    pub processed: u64,
    pub total: u64,
    pub current_file: String,
    pub phase: String,
}

/// An `ImportProgress` as a plain value.
pub struct ImportProgressView {
    pub import_id: Seq<char>,
    pub processed: u64,
    pub total: u64,
    pub current_file: Seq<char>,
    pub phase: Seq<char>,
}

impl View for ImportProgress {
    type V = ImportProgressView;

    open spec fn view(&self) -> ImportProgressView {
        ImportProgressView {
            import_id: self.import_id@,
            processed: self.processed,
            total: self.total,
            current_file: self.current_file@,
            phase: self.phase@,
        }
    }
}

/// The views of the events in `v`.
pub open spec fn events_view(v: Seq<ImportProgress>) -> Seq<ImportProgressView> {
    Seq::new(v.len(), |i: int| v[i]@)
}

/// The event of phase `error` that carries `message`.
pub open spec fn error_event(import_id: Seq<char>, message: Seq<char>) -> ImportProgressView {
    ImportProgressView {
        import_id,
        processed: 0,
        total: 0,
        current_file: message,
        phase: "error"@,
    }
}

/// Builds a progress event.
pub fn progress(import_id: &str, processed: u64, total: u64, current_file: &str, phase: &str) -> (out:
    ImportProgress)
    ensures
        out@ == (ImportProgressView {
            import_id: import_id@,
            processed,
            total,
            current_file: current_file@,
            phase: phase@,
        }),
{
    ImportProgress {
        import_id: import_id.to_owned(),
        processed,
        total,
        current_file: current_file.to_owned(),
        phase: phase.to_owned(),
    }
}

/// The event that reports the failure `message` of the import
/// `import_id`: phase `error`, zero counts, the message in place of a
/// file.
pub fn error_progress(import_id: &str, message: &str) -> (out: ImportProgress)
    ensures
        out@ == error_event(import_id@, message@),
{
    progress(import_id, 0, 0, message, "error")
}

/// The workspace directory of `state` with `exists`, which says whether
/// the directory was found.
pub fn get_workspace_path(state: &WorkspaceState, exists: bool) -> (out: WorkspaceInfo)
    ensures
        out.path@ == state.workspace_path@,
        out.exists == exists,
{
    WorkspaceInfo { path: state.workspace_path.clone(), exists }
}

/// Whether a run `..` stands at position `i` of `s`, between separators
/// or the ends of `s`.
pub open spec fn parent_at(s: Seq<char>, i: int) -> bool {
    &&& 0 <= i
    &&& i + 2 <= s.len()
    &&& s[i] == '.'
    &&& s[i + 1] == '.'
    &&& (i == 0 || is_sep(s[i - 1], true))
    &&& (i + 2 == s.len() || is_sep(s[i + 2], true))
}

/// Whether some component of `s` ascends to the parent directory, with
/// `/` and `\` both read as separators.
pub open spec fn has_parent_component(s: Seq<char>) -> bool {
    exists|i: int| parent_at(s, i)
}

/// Whether `c` is a letter of the ASCII alphabet.
pub open spec fn is_ascii_letter(c: char) -> bool {
    ('a' <= c && c <= 'z') || ('A' <= c && c <= 'Z')
}

/// Whether `s` begins with a drive letter and a colon.
pub open spec fn has_drive_prefix(s: Seq<char>) -> bool {
    s.len() >= 2 && is_ascii_letter(s[0]) && s[1] == ':'
}

/// Whether `s` is absolute: it begins with a separator, or with a drive
/// prefix that a separator follows.
pub open spec fn is_absolute_subpath(s: Seq<char>) -> bool {
    (s.len() > 0 && is_sep(s[0], true)) || (has_drive_prefix(s) && s.len() >= 3 && is_sep(
        s[2],
        true,
    ))
}

/// Why a subpath is refused, if it is: the text of the error.
pub open spec fn subpath_error(s: Seq<char>) -> Option<Seq<char>> {
    if is_absolute_subpath(s) {
        Some("Destination subpath must be relative, got absolute: "@ + s)
    } else if has_drive_prefix(s) {
        Some("Destination subpath must not contain drive prefixes: "@ + s)
    } else if has_parent_component(s) {
        Some("Destination subpath must not contain '..': "@ + s)
    } else {
        None
    }
}

/// The normal form of a subpath: its components with one `/` between
/// neighbours.
pub open spec fn normalized_subpath(s: Seq<char>) -> Seq<char> {
    render(false, components(s, false))
}

/// Whether the character `c` is a letter of the ASCII alphabet.
pub fn ascii_letter(c: char) -> (r: bool)
    ensures
        r == is_ascii_letter(c),
{
    ('a' <= c && c <= 'z') || ('A' <= c && c <= 'Z')
}

/// Whether `c` separates components in the wide reading.
fn wide_sep(c: char) -> (r: bool)
    ensures
        r == is_sep(c, true),
{
    c == '/' || c == '\\'
}

/// Whether some component of `s` is `..`, with `/` and `\` both read as
/// separators.
pub fn contains_parent_component(s: &Vec<char>) -> (r: bool)
    ensures
        r == has_parent_component(s@),
{
    let n = s.len();
    let mut i: usize = 0;
    while i < n
        invariant
            i <= n,
            n == s.len(),
            forall|j: int| 0 <= j < i ==> !parent_at(s@, j),
        decreases n - i,
    {
        if n - i >= 2 && s[i] == '.' && s[i + 1] == '.' && (i == 0 || wide_sep(s[i - 1])) && (i
            + 2 == n || wide_sep(s[i + 2])) {
            assert(parent_at(s@, i as int));
            return true;
        }
        assert(!parent_at(s@, i as int));
        i = i + 1;
    }
    assert(forall|j: int| !parent_at(s@, j));
    false
}

/// Checks that `subpath` can be placed under a root directory without
/// leaving it, and gives its normal form.
///
/// A subpath is refused where it is absolute, where it begins with a
/// drive letter, and where one of its components is `..`; the error
/// names the reason and the subpath. Nothing is read or written.
pub fn validate_subpath(subpath: &str) -> (out: Result<String, String>)
    ensures
        out is Err == subpath_error(subpath@) is Some,
        out is Err ==> out->Err_0@ == subpath_error(subpath@)->0,
        out is Ok ==> out->Ok_0@ == normalized_subpath(subpath@),
{
    let s = chars_of(subpath);
    let n = s.len();
    let drive = n >= 2 && ascii_letter(s[0]) && s[1] == ':';
    if (n > 0 && wide_sep(s[0])) || (drive && n >= 3 && wide_sep(s[2])) {
        let mut e = "Destination subpath must be relative, got absolute: ".to_owned();
        e.append(subpath);
        return Err(e);
    }
    if drive {
        let mut e = "Destination subpath must not contain drive prefixes: ".to_owned();
        e.append(subpath);
        return Err(e);
    }
    if contains_parent_component(&s) {
        let mut e = "Destination subpath must not contain '..': ".to_owned();
        e.append(subpath);
        return Err(e);
    }
    let parts = split_components(&s, false);
    let text = render_path(false, &parts, parts.len());
    proof {
        let all = parts_view(parts@);
        assert(all.take(all.len() as int) == all);
    }
    Ok(string_of(&text))
}

/// What the file system answered about one path below the workspace.
pub enum Probe {
    /// Nothing exists at the path.
    Missing,
    /// The path exists, and this is its canonical form.
    Resolved(String),
    /// The path exists but could not be resolved; the reason.
    Unresolvable(String),
}

/// A `Probe` as a plain value.
pub enum ProbeView {
    Missing,
    Resolved(Seq<char>),
    Unresolvable(Seq<char>),
}

impl View for Probe {
    type V = ProbeView;

    open spec fn view(&self) -> ProbeView {
        match self {
            Probe::Missing => ProbeView::Missing,
            Probe::Resolved(p) => ProbeView::Resolved(p@),
            Probe::Unresolvable(e) => ProbeView::Unresolvable(e@),
        }
    }
}

/// What a containment walk asks for or concludes.
pub enum WalkStep {
    /// The caller is to look at this path and report what it found.
    Probe(String),
    /// The destination stays within the workspace.
    Accept,
    /// The destination is refused; the reason.
    Reject(String),
}

/// A `WalkStep` as a plain value.
pub enum WalkVerdict {
    Probe(Seq<char>),
    Accept,
    Reject(Seq<char>),
}

impl View for WalkStep {
    type V = WalkVerdict;

    open spec fn view(&self) -> WalkVerdict {
        match self {
            WalkStep::Probe(p) => WalkVerdict::Probe(p@),
            WalkStep::Accept => WalkVerdict::Accept,
            WalkStep::Reject(e) => WalkVerdict::Reject(e@),
        }
    }
}

/// The check that a destination stays within the workspace, made
/// component by component without creating anything.
///
/// The walk starts at the canonical workspace. For each component of the
/// destination below the workspace it asks what exists at the path so
/// far. An existing path is replaced by its canonical form, which must
/// itself lie within the canonical workspace; a missing one is carried
/// on as text.
pub struct ContainmentWalk {
    /// The canonical form of the workspace, in slash form.
    pub canonical_workspace: String,
    /// The destination as it was given.
    pub dest: String,
    /// The components of the destination below the workspace.
    pub parts: Vec<Vec<char>>,
    /// How many components have been passed.
    pub index: usize,
    /// The path reached so far, in slash form.
    pub current: String,
    /// The path that the last `Probe` asked about, in slash form.
    pub pending: String,
    /// Whether a `Probe` is waiting for its answer.
    pub waiting: bool,
    /// The host whose paths are walked.
    pub os: HostOs,
}

/// A `ContainmentWalk` as a plain value. The canonical workspace, the
/// path reached and the path asked about are in slash form.
pub struct WalkView {
    pub canonical_workspace: Seq<char>,
    pub dest: Seq<char>,
    pub parts: Seq<Seq<char>>,
    pub index: int,
    pub current: Seq<char>,
    pub pending: Seq<char>,
    pub waiting: bool,
    pub os: HostOs,
}

impl View for ContainmentWalk {
    type V = WalkView;

    open spec fn view(&self) -> WalkView {
        WalkView {
            canonical_workspace: self.canonical_workspace@,
            dest: self.dest@,
            parts: parts_view(self.parts@),
            index: self.index as int,
            current: self.current@,
            pending: self.pending@,
            waiting: self.waiting,
            os: self.os,
        }
    }
}

impl WalkView {
    /// The walk goes on from the path `current`: it accepts at the end,
    /// refuses a `..`, and else asks about the next component under
    /// `current`, with the path written as the host writes it.
    pub open spec fn proceed(self, current: Seq<char>) -> (WalkView, WalkVerdict) {
        if self.index >= self.parts.len() {
            (WalkView { current, waiting: false, ..self }, WalkVerdict::Accept)
        } else if self.parts[self.index] == dotdot() {
            (
                WalkView { current, waiting: false, ..self },
                WalkVerdict::Reject("Path contains '..' component: "@ + self.dest),
            )
        } else {
            (
                WalkView {
                    current,
                    pending: join_spec(current, self.parts[self.index]),
                    waiting: true,
                    ..self
                },
                WalkVerdict::Probe(host_form(join_spec(current, self.parts[self.index]), self.os)),
            )
        }
    }

    /// The walk ends with a refusal.
    pub open spec fn refuse(self, reason: Seq<char>) -> (WalkView, WalkVerdict) {
        (WalkView { waiting: false, ..self }, WalkVerdict::Reject(reason))
    }

    /// The walk takes the answer to its last question.
    ///
    /// A missing path is carried on as text. A resolved path must lie
    /// within the canonical workspace, both read as the host reads
    /// them, else the walk ends with a refusal that names the link and
    /// where it leads. A path that cannot be resolved ends the walk. A
    /// walk that is not waiting for an answer refuses.
    pub open spec fn advance(self, answer: ProbeView) -> (WalkView, WalkVerdict) {
        if !self.waiting {
            self.refuse("Containment check is not waiting for an answer"@)
        } else {
            match answer {
                ProbeView::Missing => (WalkView { index: self.index + 1, ..self }).proceed(
                    self.pending,
                ),
                ProbeView::Resolved(target) => if starts_with_spec(
                    posix_form(target, self.os),
                    self.canonical_workspace,
                ) {
                    (WalkView { index: self.index + 1, ..self }).proceed(
                        posix_form(target, self.os),
                    )
                } else {
                    self.refuse(
                        "Symlink at "@ + host_form(self.pending, self.os) + " resolves to "@
                            + target + " which is outside workspace"@,
                    )
                },
                ProbeView::Unresolvable(reason) => self.refuse(
                    "Cannot resolve "@ + host_form(self.pending, self.os) + ": "@ + reason,
                ),
            }
        }
    }

    /// A walk that waits has components left.
    pub open spec fn wf(self) -> bool {
        &&& 0 <= self.index
        &&& self.waiting ==> self.index < self.parts.len()
    }
}

/// The walk before its first step, for the components `parts` of the
/// destination below the workspace.
pub open spec fn fresh_walk(
    dest: Seq<char>,
    root: Seq<char>,
    parts: Seq<Seq<char>>,
    os: HostOs,
) -> WalkView {
    WalkView {
        canonical_workspace: root,
        dest,
        parts,
        index: 0,
        current: Seq::empty(),
        pending: Seq::empty(),
        waiting: false,
        os,
    }
}

/// How a containment walk begins on the host `os`: refused at once
/// where the workspace cannot be resolved or the destination does not
/// lie below the workspace as written, else at the canonical workspace
/// with the components of the destination below the workspace ahead.
pub open spec fn walk_start(
    dest: Seq<char>,
    workspace: Seq<char>,
    canonical: Result<Seq<char>, Seq<char>>,
    os: HostOs,
) -> (WalkView, WalkVerdict) {
    let blank = fresh_walk(dest, Seq::empty(), Seq::empty(), os);
    match canonical {
        Err(e) => blank.refuse("Cannot resolve workspace path: "@ + e),
        Ok(root) => match strip_prefix_spec(posix_form(dest, os), posix_form(workspace, os)) {
            None => blank.refuse("Path "@ + dest + " is not under workspace "@ + workspace),
            Some(parts) => fresh_walk(dest, posix_form(root, os), parts, os).proceed(
                posix_form(root, os),
            ),
        },
    }
}

/// The view of a result whose two sides are texts.
pub open spec fn text_result(r: Result<String, String>) -> Result<Seq<char>, Seq<char>> {
    match r {
        Ok(s) => Ok(s@),
        Err(e) => Err(e@),
    }
}

impl ContainmentWalk {
    /// Moves on from the path `current`.
    fn proceed(&mut self, current: String) -> (step: WalkStep)
        requires
            old(self).index <= old(self).parts.len(),
        ensures
            final(self)@ == old(self)@.proceed(current@).0,
            step@ == old(self)@.proceed(current@).1,
    {
        self.current = current;
        if self.index >= self.parts.len() {
            self.waiting = false;
            return WalkStep::Accept;
        }
        if is_parent_component(&self.parts[self.index]) {
            self.waiting = false;
            return WalkStep::Reject(concat2("Path contains '..' component: ", self.dest.as_str()));
        }
        let name = string_of(&self.parts[self.index]);
        let next = join_paths(self.current.as_str(), name.as_str());
        let asked = to_host(next.as_str(), self.os);
        self.pending = next;
        self.waiting = true;
        WalkStep::Probe(asked)
    }

    /// Takes the answer to the last `Probe` and gives the next step.
    pub fn advance(&mut self, answer: Probe) -> (step: WalkStep)
        requires
            old(self)@.wf(),
        ensures
            final(self)@ == old(self)@.advance(answer@).0,
            step@ == old(self)@.advance(answer@).1,
            final(self)@.wf(),
    {
        if !self.waiting {
            return WalkStep::Reject("Containment check is not waiting for an answer".to_owned());
        }
        assert(parts_view(self.parts@).len() == self.parts.len());
        match answer {
            Probe::Missing => {
                let next = self.pending.clone();
                self.index = self.index + 1;
                self.proceed(next)
            },
            Probe::Resolved(target) => {
                let resolved = to_posix(target.as_str(), self.os);
                if !slash_starts_with(resolved.as_str(), self.canonical_workspace.as_str()) {
                    self.waiting = false;
                    let asked = to_host(self.pending.as_str(), self.os);
                    let mut e = concat4(
                        "Symlink at ",
                        asked.as_str(),
                        " resolves to ",
                        target.as_str(),
                    );
                    e.append(" which is outside workspace");
                    return WalkStep::Reject(e);
                }
                self.index = self.index + 1;
                self.proceed(resolved)
            },
            Probe::Unresolvable(reason) => {
                self.waiting = false;
                let asked = to_host(self.pending.as_str(), self.os);
                WalkStep::Reject(concat4("Cannot resolve ", asked.as_str(), ": ", reason.as_str()))
            },
        }
    }
}

/// Begins the check that `dest` stays within `workspace` on the host
/// `os`, given what resolving the workspace to its canonical form
/// returned.
///
/// The check ends at once with a refusal where the workspace could not
/// be resolved or `dest` does not lie below `workspace` as written.
/// Otherwise the walk stands at the canonical workspace and gives its
/// first step; nothing has been created.
pub fn ensure_within_workspace(
    dest: &str,
    workspace: &str,
    canonical_workspace: Result<String, String>,
    os: HostOs,
) -> (out: (ContainmentWalk, WalkStep))
    ensures
        out.0@ == walk_start(dest@, workspace@, text_result(canonical_workspace), os).0,
        out.1@ == walk_start(dest@, workspace@, text_result(canonical_workspace), os).1,
        out.0@.wf(),
{
    let mut walk = ContainmentWalk {
        canonical_workspace: String::new(),
        dest: dest.to_owned(),
        parts: Vec::new(),
        index: 0,
        current: String::new(),
        pending: String::new(),
        waiting: false,
        os,
    };
    assert(walk@ =~= fresh_walk(dest@, Seq::empty(), Seq::empty(), os)) by {
        assert(parts_view(walk.parts@) =~= Seq::empty());
    }
    let root = match canonical_workspace {
        Err(e) => {
            return (walk, WalkStep::Reject(concat2("Cannot resolve workspace path: ", e.as_str())));
        },
        Ok(root) => to_posix(root.as_str(), os),
    };
    let dest_slash = to_posix(dest, os);
    let workspace_slash = to_posix(workspace, os);
    let dc = chars_of(dest_slash.as_str());
    let wc = chars_of(workspace_slash.as_str());
    let dp = split_components(&dc, false);
    let wp = split_components(&wc, false);
    if starts_at_root(&dc) != starts_at_root(&wc) || !parts_prefix(&wp, &dp) {
        return (
            walk,
            WalkStep::Reject(concat4("Path ", dest, " is not under workspace ", workspace)),
        );
    }
    walk.parts = skip_parts(&dp, wp.len());
    walk.canonical_workspace = root.clone();
    let step = walk.proceed(root);
    (walk, step)
}

/// What a walk concludes when it is given the answers `answers` in
/// order, from the step `step` on: each question takes one answer,
/// and a walk that is left without an answer stays at its question.
pub open spec fn walk_outcome(walk: WalkView, step: WalkVerdict, answers: Seq<ProbeView>) -> (
    WalkView,
    WalkVerdict,
)
    decreases answers.len(),
{
    if step is Probe && answers.len() > 0 {
        walk_outcome(
            walk.advance(answers[0]).0,
            walk.advance(answers[0]).1,
            answers.drop_first(),
        )
    } else {
        (walk, step)
    }
}

/// Whether a walk has stayed within its workspace so far: the path
/// reached lies at or below the canonical workspace, and no component
/// passed ascends.
pub open spec fn walk_contained(walk: WalkView) -> bool {
    &&& starts_with_spec(walk.current, walk.canonical_workspace)
    &&& 0 <= walk.index <= walk.parts.len()
    &&& forall|k: int| 0 <= k < walk.index ==> walk.parts[k] != dotdot()
    &&& all_plain(walk.parts)
    &&& walk.waiting ==> walk.index < walk.parts.len() && walk.parts[walk.index] != dotdot()
        && walk.pending == join_spec(walk.current, walk.parts[walk.index])
}

/// A walk that has stayed within its workspace stays within it at its
/// next step, unless that step refuses; and an answer that resolves
/// outside the canonical workspace is refused.
pub proof fn law_walk_step_contained(walk: WalkView, answer: ProbeView)
    requires
        walk_contained(walk),
        walk.waiting,
    ensures
        !(walk.advance(answer).1 is Reject) ==> walk_contained(walk.advance(answer).0),
        walk.advance(answer).1 is Accept ==> walk.advance(answer).0.index == walk.parts.len(),
        answer matches ProbeView::Resolved(target) && !starts_with_spec(
            posix_form(target, walk.os),
            walk.canonical_workspace,
        ) ==> walk.advance(answer).1 is Reject,
        answer is Unresolvable ==> walk.advance(answer).1 is Reject,
{
    let name = walk.parts[walk.index];
    assert(plain(name));
    match answer {
        ProbeView::Missing => {
            lemma_components_of_plain(name);
            assert(!is_rooted(name));
            law_join_stays_below(walk.current, name);
            let root = components(walk.canonical_workspace, false);
            let here = components(walk.current, false);
            assert(root.is_prefix_of(here + seq![name])) by {
                assert((here + seq![name]).subrange(0, root.len() as int) =~= here.subrange(
                    0,
                    root.len() as int,
                ));
            }
            if walk.current.len() > 0 {
                assert(join_spec(walk.current, name)[0] == walk.current[0]);
            }
        },
        _ => {},
    }
}

/// A destination is accepted only where it stays within the workspace.
///
/// Whatever the file system answers, a walk that accepts has passed
/// every component of the destination below the workspace, none of them
/// `..`, and stands at a path at or below the canonical workspace. So a
/// destination that runs through a link out of the workspace is never
/// accepted.
pub proof fn law_accepted_destination_is_contained(
    walk: WalkView,
    step: WalkVerdict,
    answers: Seq<ProbeView>,
)
    requires
        walk_contained(walk),
        step is Probe <==> walk.waiting,
        step is Accept ==> walk.index == walk.parts.len(),
    ensures
        walk_outcome(walk, step, answers).1 is Accept ==> ({
            let last = walk_outcome(walk, step, answers).0;
            &&& starts_with_spec(last.current, walk.canonical_workspace)
            &&& last.index == walk.parts.len()
            &&& !walk.parts.contains(dotdot())
        }),
    decreases answers.len(),
{
    if step is Probe && answers.len() > 0 {
        let next = walk.advance(answers[0]);
        law_walk_step_contained(walk, answers[0]);
        if !(next.1 is Reject) {
            law_accepted_destination_is_contained(next.0, next.1, answers.drop_first());
        } else {
            lemma_refusal_stays(next.0, next.1, answers.drop_first());
        }
    }
}

/// A walk that has refused stays refused.
proof fn lemma_refusal_stays(walk: WalkView, step: WalkVerdict, answers: Seq<ProbeView>)
    requires
        step is Reject,
    ensures
        walk_outcome(walk, step, answers) == (walk, step),
{
}

/// A walk begins within its workspace: where it does not refuse at
/// once, it stands at the canonical workspace.
pub proof fn law_walk_begins_contained(
    dest: Seq<char>,
    workspace: Seq<char>,
    root: Seq<char>,
    os: HostOs,
)
    ensures
        ({
            let first = walk_start(dest, workspace, Ok(root), os);
            let below = strip_prefix_spec(posix_form(dest, os), posix_form(workspace, os));
            &&& !(first.1 is Reject) ==> walk_contained(first.0) && first.0.canonical_workspace
                == posix_form(root, os) && below == Some(first.0.parts)
            &&& first.1 is Probe <==> first.0.waiting
            &&& first.1 is Accept ==> first.0.index == first.0.parts.len()
            &&& below is None ==> first.1 is Reject
        }),
{
    let d = posix_form(dest, os);
    let w = posix_form(workspace, os);
    let r = posix_form(root, os);
    match strip_prefix_spec(d, w) {
        Some(parts) => {
            law_components_are_plain(d, false);
            let all = components(d, false);
            let n = components(w, false).len() as int;
            assert(all_plain(parts)) by {
                assert forall|k: int| 0 <= k < parts.len() implies plain(#[trigger] parts[k]) by {
                    assert(parts[k] == all[k + n]);
                }
            }
            assert(components(r, false).subrange(0, components(r, false).len() as int)
                =~= components(r, false));
        },
        None => {},
    }
}

/// On a Windows host a directory below the workspace is read as below
/// it where both are written with `\\`, with a drive or as verbatim
/// paths: what decides is that the components of the one begin with
/// those of the other.
pub proof fn law_windows_paths_are_read(base: Seq<char>, name: Seq<char>)
    requires
        plain(name),
        forall|i: int| 0 <= i < name.len() ==> name[i] != '\\',
        base.len() > 0,
    ensures
        starts_with_spec(
            posix_form(base + seq!['\\'] + name, HostOs::Windows),
            posix_form(base, HostOs::Windows),
        ),
{
    let os = HostOs::Windows;
    let b = posix_form(base, os);
    let whole = posix_form(base + seq!['\\'] + name, os);
    assert(posix_form(name, os) =~= name);
    assert(whole =~= b + seq!['/'] + name);
    assert(!is_rooted(name));
    if b.last() == '/' {
        // The separator that is written doubles the one at the end of the base.
        let glued = seq!['/'] + name;
        assert(whole =~= b + glued);
        crate::path_laws::lemma_scan_concat(b, glued, false);
        crate::path_laws::lemma_scan_from_fresh(crate::path::scan(b, false).0, glued, false);
        let cb = components(b, false);
        let tail = components(glued, false);
        assert(crate::path::keep(
            cb + crate::path::scan(glued, false).0,
            crate::path::scan(glued, false).1,
        ) =~= cb + tail);
        assert((cb + tail).subrange(0, cb.len() as int) =~= cb);
        assert(whole[0] == b[0]);
    } else {
        law_join_stays_below(b, name);
    }
}

/// What happened when a directory was created and then looked at again.
pub enum Creation {
    /// The directory could not be created; the reason.
    Failed(String),
    /// The directory is there. `workspace` and `created` hold what
    /// resolving the workspace and the directory to canonical form
    /// returned. `made` is the topmost directory that did not exist
    /// before and that this call created, where it created any.
    Made { workspace: Result<String, String>, created: Result<String, String>, made: Option<String> },
}

/// A `Creation` as a plain value.
pub enum CreationView {
    Failed(Seq<char>),
    Made {
        workspace: Result<Seq<char>, Seq<char>>,
        created: Result<Seq<char>, Seq<char>>,
        made: Option<Seq<char>>,
    },
}

impl View for Creation {
    type V = CreationView;

    open spec fn view(&self) -> CreationView {
        match self {
            Creation::Failed(e) => CreationView::Failed(e@),
            Creation::Made { workspace, created, made } => CreationView::Made {
                workspace: text_result(*workspace),
                created: text_result(*created),
                made: opt_text(*made),
            },
        }
    }
}

/// Why a directory that was asked for is not accepted.
pub struct CreateFailure {
    /// The text of the error.
    pub message: String,
    /// The directory that the caller is to remove again: the one that
    /// this call created, where it lies outside the workspace.
    pub remove: Option<String>,
}

/// A `CreateFailure` as a plain value.
pub struct CreateFailureView {
    pub message: Seq<char>,
    pub remove: Option<Seq<char>>,
}

impl View for CreateFailure {
    type V = CreateFailureView;

    open spec fn view(&self) -> CreateFailureView {
        CreateFailureView { message: self.message@, remove: opt_text(self.remove) }
    }
}

/// The verdict on the directory `dir` of the host `os` after
/// `creation`: `None` where it is accepted, else the error and what is
/// to be removed. Only a directory that this call created is removed,
/// and only where the directory asked for resolves outside the
/// workspace. `what` names the directory in the error for one that
/// cannot be resolved.
pub open spec fn creation_failure(
    dir: Seq<char>,
    creation: CreationView,
    what: Seq<char>,
    os: HostOs,
) -> Option<CreateFailureView> {
    match creation {
        CreationView::Failed(e) => Some(
            CreateFailureView {
                message: "Failed to create directory "@ + dir + ": "@ + e,
                remove: None,
            },
        ),
        CreationView::Made { workspace: Err(e), created, made } => Some(
            CreateFailureView { message: "Cannot resolve workspace: "@ + e, remove: None },
        ),
        CreationView::Made { workspace: Ok(root), created: Err(e), made } => Some(
            CreateFailureView {
                message: "Cannot resolve created "@ + what + ": "@ + e,
                remove: None,
            },
        ),
        CreationView::Made { workspace: Ok(root), created: Ok(target), made } => if starts_with_spec(
            posix_form(target, os),
            posix_form(root, os),
        ) {
            None
        } else {
            Some(
                CreateFailureView {
                    message: "Created directory "@ + dir + " resolves outside workspace to "@
                        + target,
                    remove: made,
                },
            )
        },
    }
}

/// The view of a failure that may be absent.
pub open spec fn failure_view(r: Result<(), CreateFailure>) -> Option<CreateFailureView> {
    match r {
        Ok(_) => None,
        Err(f) => Some(f@),
    }
}

/// Judges the directory `dir` after `creation`.
fn judge_creation(dir: &str, creation: Creation, what: &str, os: HostOs) -> (out: Result<
    (),
    CreateFailure,
>)
    ensures
        failure_view(out) == creation_failure(dir@, creation@, what@, os),
{
    match creation {
        Creation::Failed(e) => Err(
            CreateFailure {
                message: concat4("Failed to create directory ", dir, ": ", e.as_str()),
                remove: None,
            },
        ),
        Creation::Made { workspace, created, made } => {
            let root = match workspace {
                Err(e) => {
                    return Err(
                        CreateFailure {
                            message: concat2("Cannot resolve workspace: ", e.as_str()),
                            remove: None,
                        },
                    );
                },
                Ok(root) => root,
            };
            let target = match created {
                Err(e) => {
                    return Err(
                        CreateFailure {
                            message: concat4("Cannot resolve created ", what, ": ", e.as_str()),
                            remove: None,
                        },
                    );
                },
                Ok(target) => target,
            };
            if path_starts_with(target.as_str(), root.as_str(), os) {
                Ok(())
            } else {
                Err(
                    CreateFailure {
                        message: concat4(
                            "Created directory ",
                            dir,
                            " resolves outside workspace to ",
                            target.as_str(),
                        ),
                        remove: made,
                    },
                )
            }
        },
    }
}

/// Judges a directory that was created within the workspace, on the
/// host `os`.
///
/// The directory is accepted exactly where it is there, the workspace
/// and the directory both resolve, and the canonical directory lies
/// within the canonical workspace. Where it resolves outside the
/// workspace, the failure names what this call created, for the caller
/// to remove; what existed before is never named.
pub fn safe_create_dir(dir: &str, creation: Creation, os: HostOs) -> (out: Result<
    (),
    CreateFailure,
>)
    ensures
        failure_view(out) == creation_failure(dir@, creation@, "directory "@ + dir@, os),
{
    let what = concat2("directory ", dir);
    judge_creation(dir, creation, what.as_str(), os)
}

/// Judges the parent directory `parent` of a destination file after it
/// was created: as `safe_create_dir` does, with the error for a parent
/// that cannot be resolved worded for a parent.
pub fn safe_create_parent_dirs(parent: &str, creation: Creation, os: HostOs) -> (out: Result<
    (),
    CreateFailure,
>)
    ensures
        failure_view(out) == creation_failure(parent@, creation@, "parent"@, os),
{
    judge_creation(parent, creation, "parent", os)
}

/// A directory is accepted only where its canonical form lies within
/// the canonical workspace, as the host reads them. Something is to be
/// removed only where the directory resolves outside, and then it is
/// what this call created and nothing else; where the call created
/// nothing, nothing is removed.
pub proof fn law_created_directory_is_contained(
    dir: Seq<char>,
    creation: CreationView,
    what: Seq<char>,
    os: HostOs,
)
    ensures
        creation_failure(dir, creation, what, os) is None ==> (creation matches (
        CreationView::Made { workspace: Ok(root), created: Ok(target), made }) && starts_with_spec(
            posix_form(target, os),
            posix_form(root, os),
        )),
        (creation_failure(dir, creation, what, os) matches Some(failure) && failure.remove is Some)
            ==> (creation matches (CreationView::Made {
            workspace: Ok(root),
            created: Ok(target),
            made,
        }) && !starts_with_spec(posix_form(target, os), posix_form(root, os)) && made
            == creation_failure(dir, creation, what, os)->0.remove),
        creation matches (CreationView::Made { workspace, created, made: None })
            ==> !(creation_failure(dir, creation, what, os) matches Some(failure)
            && failure.remove is Some),
{
}

/// A directory that a Windows host reports below its workspace, both
/// as verbatim paths, is accepted.
pub proof fn law_windows_directory_is_accepted(
    dir: Seq<char>,
    root: Seq<char>,
    name: Seq<char>,
    made: Option<Seq<char>>,
    what: Seq<char>,
)
    requires
        plain(name),
        forall|i: int| 0 <= i < name.len() ==> name[i] != '\\',
        root.len() > 0,
    ensures
        creation_failure(
            dir,
            CreationView::Made {
                workspace: Ok(root),
                created: Ok(root + seq!['\\'] + name),
                made,
            },
            what,
            HostOs::Windows,
        ) is None,
{
    law_windows_paths_are_read(root, name);
}

/// When the destination of a copy is looked at.
#[derive(Clone, Copy, PartialEq, Eq, Debug)]
pub enum CopyMoment {
    /// Before the copy is made.
    Before,
    /// After the copy was made.
    After,
}

/// Why a copy is refused on a host that cannot refuse to follow a link
/// when it opens a file: the destination is a link before the copy,
/// or has become one during it.
pub open spec fn link_refusal(dest: Seq<char>, moment: CopyMoment) -> Seq<char> {
    match moment {
        CopyMoment::Before => "Destination is a symlink/junction: "@ + dest,
        CopyMoment::After => "Destination became a symlink during copy: "@ + dest,
    }
}

/// Judges the destination `dest` of a copy on a host where links are
/// looked for before and after the copy. `is_link` says whether the
/// destination is a link now; where its metadata cannot be read it
/// counts as none. A destination that became a link during the copy is
/// to be removed by the caller.
pub fn safe_copy_file(dest: &str, moment: CopyMoment, is_link: bool) -> (out: Result<(), String>)
    ensures
        out is Err == is_link,
        out is Err ==> out->Err_0@ == link_refusal(dest@, moment),
{
    if !is_link {
        return Ok(());
    }
    match moment {
        CopyMoment::Before => Err(concat2("Destination is a symlink/junction: ", dest)),
        CopyMoment::After => Err(concat2("Destination became a symlink during copy: ", dest)),
    }
}

} // verus!
