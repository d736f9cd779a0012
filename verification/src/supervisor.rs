//! The supervisor of the bundled services: the file of processes, the
//! reaping of orphans, the plan of a startup and of a shutdown.

use vstd::prelude::*;
use crate::command::{CommandSpec, CommandView};
use crate::parse::{
    all_digits, digit_value, digits_value, is_digit, lemma_split_nonempty, parse_signed,
    parse_unsigned, pieces, read_signed, read_unsigned, split, split_on, trim, trim_end,
    trim_start, trimmed,
};
use crate::path::{join_on, join_on_spec, join_paths, join_spec};
use crate::text::{
    chars_of, concat2, decimal, decimal_string, digit, no_texts, opt_text, pairs, push_pair,
    push_text, texts,
};
use crate::vm::config::{upsert, VMConfig, VMConfigView};
use crate::vm::error::{VMError, VMErrorView};
use crate::vm::image::{
    resource_plan, stage_vm_resources, FileMeta, ResourcePathsView, ResourcePlan,
    ResourcePlanView, VMResourcePaths,
};
use crate::vm::{
    create_platform_vm, vm_backend_name, HostOs, PlatformVM, PlatformView, StopPlan, StopPlanView,
    VirtualMachine,
};

verus! {

/// The name of the file of processes.
pub open spec fn pid_file_name() -> Seq<char> {
    "desktop-services.pid"@
}

/// The file below `data_dir` that lists the processes of a run, so that
/// the next run can end those that outlive it.
pub fn pid_file_path(data_dir: &str) -> (out: String)
    ensures
        out@ == join_spec(data_dir@, pid_file_name()),
{
    join_paths(data_dir, "desktop-services.pid")
}

/// The numbers that `lines` hold, one to a line at most, in order; a
/// line that holds no number is passed over.
pub open spec fn numbers(lines: Seq<Seq<char>>) -> Seq<int>
    decreases lines.len(),
{
    if lines.len() == 0 {
        Seq::empty()
    } else {
        match parse_signed(trim(lines.last())) {
            Some(n) => numbers(lines.drop_last()).push(n),
            None => numbers(lines.drop_last()),
        }
    }
}

/// The processes that the file of processes with the text `contents`
/// lists.
pub open spec fn listed_processes(contents: Seq<char>) -> Seq<int> {
    numbers(split_on(contents, '\n'))
}

/// The integers of `v` as mathematical integers.
pub open spec fn ints(v: Seq<i32>) -> Seq<int> {
    Seq::new(v.len(), |i: int| v[i] as int)
}

/// The processes of an earlier run that may have outlived it: those
/// that the file of processes lists, where there is one. Each is to be
/// probed and, if alive, ended; then the file is removed.
pub fn cleanup_stale_processes(contents: Option<&str>) -> (out: Vec<i32>)
    ensures
        contents is None ==> out@.len() == 0,
        contents is Some ==> ints(out@) == listed_processes(contents->0@),
{
    let mut out: Vec<i32> = Vec::new();
    let text = match contents {
        None => {
            return out;
        },
        Some(text) => text,
    };
    let chars = chars_of(text);
    let lines = split(&chars, '\n');
    let ghost all = split_on(text@, '\n');
    let mut i: usize = 0;
    assert(ints(out@) =~= Seq::empty());
    assert(all.take(0) =~= Seq::empty());
    while i < lines.len()
        invariant
            i <= lines.len(),
            pieces(lines@) == all,
            ints(out@) == numbers(all.take(i as int)),
        decreases lines.len() - i,
    {
        proof {
            assert(all.take(i + 1).drop_last() =~= all.take(i as int));
            assert(all.take(i + 1).last() == lines@[i as int]@);
        }
        let line = trimmed(&lines[i]);
        match read_signed(&line) {
            Some(pid) => {
                let ghost before = ints(out@);
                out.push(pid);
                assert(ints(out@) =~= before.push(pid as int));
            },
            None => {},
        }
        i = i + 1;
    }
    assert(all.take(lines.len() as int) =~= all);
    out
}

/// What is done to a process.
#[derive(Clone, Copy, PartialEq, Eq, Debug)]
pub enum ProcessAction {
    /// Ask the process to end.
    Terminate(i32),
    /// Wait this many milliseconds.
    Wait(u64),
    /// End the process by force.
    Kill(i32),
}

/// The time that a process is given to end when asked, in milliseconds,
/// when orphans are reaped.
pub const REAP_GRACE_MS: u64 = 500;

/// How the process `pid` of an earlier run is dealt with: one that is
/// alive is asked to end, given a moment, and then ended by force; one
/// that is gone is left alone.
pub fn reap_actions(pid: i32, alive: bool) -> (out: Vec<ProcessAction>)
    ensures
        alive ==> out@ == seq![
            ProcessAction::Terminate(pid),
            ProcessAction::Wait(REAP_GRACE_MS),
            ProcessAction::Kill(pid),
        ],
        !alive ==> out@.len() == 0,
{
    let mut out: Vec<ProcessAction> = Vec::new();
    if alive {
        out.push(ProcessAction::Terminate(pid));
        out.push(ProcessAction::Wait(REAP_GRACE_MS));
        out.push(ProcessAction::Kill(pid));
        assert(out@ =~= seq![
            ProcessAction::Terminate(pid),
            ProcessAction::Wait(REAP_GRACE_MS),
            ProcessAction::Kill(pid),
        ]);
    }
    out
}

/// The lines of the file of processes for `pids`: each in decimal,
/// each ended by a line feed.
pub open spec fn pid_lines(pids: Seq<u32>) -> Seq<char>
    decreases pids.len(),
{
    if pids.len() == 0 {
        Seq::empty()
    } else {
        pid_lines(pids.drop_last()) + decimal(pids.last() as nat) + "\n"@
    }
}

/// The processes to list: the children, then the machine where it has
/// a process.
pub open spec fn pids_to_list(children: Seq<u32>, vm_pid: Option<u32>) -> Seq<u32> {
    match vm_pid {
        Some(pid) => children.push(pid),
        None => children,
    }
}

/// The text of the file of processes for the children `children` and
/// the process of the machine: one process to a line.
pub fn write_pid_file(children: &Vec<u32>, vm_pid: Option<u32>) -> (out: String)
    ensures
        out@ == pid_lines(pids_to_list(children@, vm_pid)),
{
    let mut out = String::new();
    let mut i: usize = 0;
    assert(children@.take(0) =~= Seq::empty());
    while i < children.len()
        invariant
            i <= children.len(),
            out@ == pid_lines(children@.take(i as int)),
        decreases children.len() - i,
    {
        proof {
            assert(children@.take(i + 1).drop_last() =~= children@.take(i as int));
        }
        let n = decimal_string(children[i] as u64);
        out.append(n.as_str());
        out.append("\n");
        i = i + 1;
    }
    assert(children@.take(children.len() as int) =~= children@);
    match vm_pid {
        Some(pid) => {
            let n = decimal_string(pid as u64);
            out.append(n.as_str());
            out.append("\n");
            assert(children@.push(pid).drop_last() =~= children@);
        },
        None => {},
    }
    out
}

/// Whether a directory holds the bundled services, given whether the
/// worker runtime and the database shim were found in it.
pub fn resource_layout_valid(workerd_exists: bool, d1_shim_exists: bool) -> (out: bool)
    ensures
        out == (workerd_exists && d1_shim_exists),
{
    workerd_exists && d1_shim_exists
}

/// Where the worker runtime and the database shim are looked for below
/// `root`.
pub fn resource_layout_probes(root: &str) -> (out: (String, String))
    ensures
        out.0@ == join_spec(root@, "workerd/workerd"@),
        out.1@ == join_spec(root@, "d1-shim/d1-shim"@),
{
    (join_paths(root, "workerd/workerd"), join_paths(root, "d1-shim/d1-shim"))
}

/// A directory that may hold the bundled services, and whether it does.
pub struct Candidate {
    pub path: String,
    pub valid: bool,
}

/// A `Candidate` as a plain value.
pub struct CandidateView {
    pub path: Seq<char>,
    pub valid: bool,
}

impl View for Candidate {
    type V = CandidateView;

    open spec fn view(&self) -> CandidateView {
        CandidateView { path: self.path@, valid: self.valid }
    }
}

/// The resource root: the first of three candidates that holds the
/// services, tried in this order: the override, the directory of the
/// application, the development directory.
pub open spec fn resource_root(
    overridden: Option<CandidateView>,
    bundled: Option<CandidateView>,
    development: CandidateView,
) -> Option<Seq<char>> {
    if overridden is Some && overridden->0.valid {
        Some(overridden->0.path)
    } else if bundled is Some && bundled->0.valid {
        Some(bundled->0.path)
    } else if development.valid {
        Some(development.path)
    } else {
        None
    }
}

/// The view of a candidate that may be absent.
pub open spec fn opt_candidate(c: Option<Candidate>) -> Option<CandidateView> {
    match c {
        Some(c) => Some(c@),
        None => None,
    }
}

/// Chooses the resource root among the override from the environment,
/// the directory of the application and the development directory.
pub fn resolve_resource_root(
    overridden: Option<Candidate>,
    bundled: Option<Candidate>,
    development: Candidate,
) -> (out: Option<String>)
    ensures
        opt_text(out) == resource_root(
            opt_candidate(overridden),
            opt_candidate(bundled),
            development@,
        ),
{
    match overridden {
        Some(c) => {
            if c.valid {
                return Some(c.path);
            }
        },
        None => {},
    }
    match bundled {
        Some(c) => {
            if c.valid {
                return Some(c.path);
            }
        },
        None => {},
    }
    if development.valid {
        Some(development.path)
    } else {
        None
    }
}

/// The mode that makes a file executable, on a host that has modes.
pub fn ensure_executable(os: HostOs) -> (out: Option<u32>)
    ensures
        out == (if os == HostOs::Windows {
            None
        } else {
            Some(0o755u32)
        }),
{
    match os {
        HostOs::Windows => None,
        _ => Some(0o755),
    }
}

/// Whether a binary must be copied again: there is no copy, the source
/// is newer, or the two differ in length.
pub open spec fn needs_copy(src: FileMeta, dest: Option<FileMeta>) -> bool {
    match dest {
        None => true,
        Some(d) => src.modified > d.modified || src.len != d.len,
    }
}

/// Decides whether the binary of which the file system says `src_meta`
/// is copied over the staged one, of which it says `dest_meta`. It
/// fails exactly where the source cannot be read, with that error.
pub fn stage_executable(src_meta: Result<FileMeta, std::io::Error>, dest_meta: Option<FileMeta>) -> (out:
    Result<bool, std::io::Error>)
    ensures
        out is Err == src_meta is Err,
        out is Err ==> out->Err_0 == src_meta->Err_0,
        out is Ok ==> out->Ok_0 == needs_copy(src_meta->Ok_0, dest_meta),
{
    let src = match src_meta {
        Err(e) => {
            return Err(e);
        },
        Ok(m) => m,
    };
    match dest_meta {
        None => Ok(true),
        Some(d) => Ok(src.modified > d.modified || src.len != d.len),
    }
}

/// How often a bundled service is probed before the startup goes on
/// without an answer.
pub const SIDECAR_ATTEMPTS: u32 = 10;

/// The time between two probes of a bundled service, in milliseconds.
pub const SIDECAR_DELAY_MS: u64 = 500;

/// What the wait for a bundled service does next.
#[derive(Clone, Copy, PartialEq, Eq, Debug)]
pub enum SidecarStep {
    /// The service accepts connections; the health request is sent.
    Ready,
    /// Wait this many milliseconds, then probe again.
    Retry(u64),
    /// Wait this many milliseconds, then go on without an answer.
    GiveUp(u64),
}

/// What the wait for a bundled service does after probe number
/// `attempt`, counted from zero, given whether the service accepted
/// the connection.
pub fn wait_for_health(attempt: u32, connected: bool) -> (out: SidecarStep)
    ensures
        connected ==> out == SidecarStep::Ready,
        !connected && attempt + 1 < SIDECAR_ATTEMPTS ==> out == SidecarStep::Retry(
            SIDECAR_DELAY_MS,
        ),
        !connected && attempt + 1 >= SIDECAR_ATTEMPTS ==> out == SidecarStep::GiveUp(
            SIDECAR_DELAY_MS,
        ),
{
    if connected {
        SidecarStep::Ready
    } else if attempt < SIDECAR_ATTEMPTS - 1 {
        SidecarStep::Retry(SIDECAR_DELAY_MS)
    } else {
        SidecarStep::GiveUp(SIDECAR_DELAY_MS)
    }
}

/// What the environment says of a startup; a variable that is not set
/// is absent.
pub struct StartupEnv {
    /// The switch that disables the startup of the services.
    pub autostart: Option<String>,
    pub d1_shim_addr: Option<String>,
    pub d1_shim_debug: Option<String>,
    pub frontend_port: Option<String>,
    pub controlplane_port: Option<String>,
    pub sandbox_url: Option<String>,
    pub sandbox_internal_token: Option<String>,
    pub internal_api_token: Option<String>,
    pub dev_auth_enabled: Option<String>,
    pub allowed_origins: Option<String>,
    pub frontend_url: Option<String>,
    pub sandbox_port: Option<String>,
}

/// A `StartupEnv` as a plain value.
pub struct StartupEnvView {
    pub autostart: Option<Seq<char>>,
    pub d1_shim_addr: Option<Seq<char>>,
    pub d1_shim_debug: Option<Seq<char>>,
    pub frontend_port: Option<Seq<char>>,
    pub controlplane_port: Option<Seq<char>>,
    pub sandbox_url: Option<Seq<char>>,
    pub sandbox_internal_token: Option<Seq<char>>,
    pub internal_api_token: Option<Seq<char>>,
    pub dev_auth_enabled: Option<Seq<char>>,
    pub allowed_origins: Option<Seq<char>>,
    pub frontend_url: Option<Seq<char>>,
    pub sandbox_port: Option<Seq<char>>,
}

impl View for StartupEnv {
    type V = StartupEnvView;

    open spec fn view(&self) -> StartupEnvView {
        StartupEnvView {
            autostart: opt_text(self.autostart),
            d1_shim_addr: opt_text(self.d1_shim_addr),
            d1_shim_debug: opt_text(self.d1_shim_debug),
            frontend_port: opt_text(self.frontend_port),
            controlplane_port: opt_text(self.controlplane_port),
            sandbox_url: opt_text(self.sandbox_url),
            sandbox_internal_token: opt_text(self.sandbox_internal_token),
            internal_api_token: opt_text(self.internal_api_token),
            dev_auth_enabled: opt_text(self.dev_auth_enabled),
            allowed_origins: opt_text(self.allowed_origins),
            frontend_url: opt_text(self.frontend_url),
            sandbox_port: opt_text(self.sandbox_port),
        }
    }
}

/// The value `value`, or `fallback` where it is absent.
pub open spec fn or_default(value: Option<Seq<char>>, fallback: Seq<char>) -> Seq<char> {
    match value {
        Some(v) => v,
        None => fallback,
    }
}

/// The value `value`, or `fallback` where it is absent.
pub fn value_or(value: &Option<String>, fallback: &str) -> (out: String)
    ensures
        out@ == or_default(opt_text(*value), fallback@),
{
    match value {
        Some(v) => v.clone(),
        None => fallback.to_owned(),
    }
}

/// The port of the frontend.
pub open spec fn frontend_port(env: StartupEnvView) -> Seq<char> {
    or_default(env.frontend_port, "8788"@)
}

/// The port of the control plane.
pub open spec fn controlplane_port(env: StartupEnvView) -> Seq<char> {
    or_default(env.controlplane_port, "8787"@)
}

/// The address of the frontend on this host.
pub open spec fn local_frontend(env: StartupEnvView) -> Seq<char> {
    "http://localhost:"@ + frontend_port(env)
}

/// The command that starts the database shim staged below `data_dir`.
pub open spec fn d1_shim_command(data_dir: Seq<char>, env: StartupEnvView) -> CommandView {
    CommandView {
        program: join_spec(join_spec(data_dir, "bin"@), "d1-shim"@),
        args: Seq::empty(),
        env: seq![
            ("D1_SQLITE_PATH"@, join_spec(join_spec(data_dir, "d1"@), "controlplane.sqlite"@)),
            ("D1_SHIM_ADDR"@, or_default(env.d1_shim_addr, "127.0.0.1:9001"@)),
            ("D1_SHIM_DEBUG"@, or_default(env.d1_shim_debug, Seq::empty())),
        ],
        quiet: false,
    }
}

/// The arguments with which every worker runtime begins: it serves,
/// and imports from its own resources and from the resource root.
pub open spec fn serve_args(root: Seq<char>) -> Seq<Seq<char>> {
    seq![
        "serve"@,
        "--experimental"@,
        "--import-path"@,
        join_spec(root, "workerd"@),
        "--import-path"@,
        root,
    ]
}

/// The command that starts the worker runtime that serves the frontend.
pub open spec fn frontend_command(root: Seq<char>, data_dir: Seq<char>, env: StartupEnvView) -> CommandView {
    CommandView {
        program: join_spec(join_spec(data_dir, "bin"@), "workerd"@),
        args: serve_args(root) + seq![
            "--directory-path"@,
            "assets-dir="@ + join_spec(root, "frontend/assets"@),
            "--socket-addr"@,
            "http=127.0.0.1:"@ + frontend_port(env),
            join_spec(root, "workerd/config/workerd.frontend.capnp"@),
        ],
        env: seq![
            ("NEXT_PUBLIC_API_URL"@, "http://localhost:"@ + controlplane_port(env)),
            ("NEXT_PUBLIC_SITE_URL"@, local_frontend(env)),
            ("NEXT_PUBLIC_DEV_MODE_ENABLED"@, "true"@),
            ("NEXT_PUBLIC_DESKTOP_MODE"@, "true"@),
        ],
        quiet: false,
    }
}

/// The variables of the worker runtime that is the control plane.
pub open spec fn workerd_env(env: StartupEnvView) -> Seq<(Seq<char>, Seq<char>)> {
    seq![
        ("D1_HTTP_URL"@, "http://d1-shim"@),
        ("SANDBOX_URL"@, or_default(env.sandbox_url, "http://127.0.0.1:8080"@)),
        ("SANDBOX_INTERNAL_TOKEN"@, or_default(env.sandbox_internal_token, "dev-sandbox-token"@)),
        ("INTERNAL_API_TOKEN"@, or_default(env.internal_api_token, "dev-internal-token"@)),
        ("DEV_AUTH_ENABLED"@, or_default(env.dev_auth_enabled, "true"@)),
        ("ALLOWED_ORIGINS"@, or_default(env.allowed_origins, local_frontend(env))),
        ("FRONTEND_URL"@, or_default(env.frontend_url, local_frontend(env))),
    ] + (match env.d1_shim_debug {
        Some(v) => seq![("D1_SHIM_DEBUG"@, v)],
        None => Seq::empty(),
    })
}

/// The command that starts the worker runtime that is the control
/// plane.
pub open spec fn workerd_command(root: Seq<char>, data_dir: Seq<char>, env: StartupEnvView) -> CommandView {
    CommandView {
        program: join_spec(join_spec(data_dir, "bin"@), "workerd"@),
        args: serve_args(root) + seq![
            "--socket-addr"@,
            "http=127.0.0.1:"@ + controlplane_port(env),
            "--directory-path"@,
            "do-storage="@ + join_spec(data_dir, "durable_objects"@),
            join_spec(root, "workerd/config/workerd.desktop.capnp"@),
        ],
        env: workerd_env(env),
        quiet: false,
    }
}

/// One step of a startup.
pub enum StartupStep {
    /// End the processes that the file of processes lists, and remove
    /// the file.
    Reap { pid_file: String },
    /// Create the directory; the startup ends where that fails.
    EnsureDir { path: String },
    /// Copy the binary where it is newer or of another length, and make
    /// it executable; the startup ends where that fails.
    Stage { source: String, dest: String },
    /// The startup ends where the file is missing.
    Require { path: String },
    /// Start the service, unless one of `conditions` or its binary is
    /// missing; a service that does not start is passed over.
    Spawn { label: String, command: CommandSpec, conditions: Vec<String> },
    /// Wait until the service at the port accepts connections, unless
    /// one of `conditions` is missing.
    WaitHealth { port: String, conditions: Vec<String> },
    /// Write the file of processes with the services that run.
    WritePidFile { path: String },
}

/// A `StartupStep` as a plain value.
pub enum StepView {
    Reap { pid_file: Seq<char> },
    EnsureDir { path: Seq<char> },
    Stage { source: Seq<char>, dest: Seq<char> },
    Require { path: Seq<char> },
    Spawn { label: Seq<char>, command: CommandView, conditions: Seq<Seq<char>> },
    WaitHealth { port: Seq<char>, conditions: Seq<Seq<char>> },
    WritePidFile { path: Seq<char> },
}

impl View for StartupStep {
    type V = StepView;

    open spec fn view(&self) -> StepView {
        match self {
            StartupStep::Reap { pid_file } => StepView::Reap { pid_file: pid_file@ },
            StartupStep::EnsureDir { path } => StepView::EnsureDir { path: path@ },
            StartupStep::Stage { source, dest } => StepView::Stage {
                source: source@,
                dest: dest@,
            },
            StartupStep::Require { path } => StepView::Require { path: path@ },
            StartupStep::Spawn { label, command, conditions } => StepView::Spawn {
                label: label@,
                command: command@,
                conditions: texts(conditions@),
            },
            StartupStep::WaitHealth { port, conditions } => StepView::WaitHealth {
                port: port@,
                conditions: texts(conditions@),
            },
            StartupStep::WritePidFile { path } => StepView::WritePidFile { path: path@ },
        }
    }
}

/// The views of the steps in `v`.
pub open spec fn steps_view(v: Seq<StartupStep>) -> Seq<StepView> {
    Seq::new(v.len(), |i: int| v[i]@)
}

/// What the frontend needs to be served: its configuration and its
/// assets.
pub open spec fn frontend_conditions(root: Seq<char>) -> Seq<Seq<char>> {
    seq![
        join_spec(root, "workerd/config/workerd.frontend.capnp"@),
        join_spec(root, "frontend/assets"@),
    ]
}

/// The steps of a startup, in order. Orphans are reaped first; the
/// binaries are staged and the directories made before anything is
/// started; the file of processes is written last.
pub open spec fn startup_steps(root: Seq<char>, data_dir: Seq<char>, env: StartupEnvView) -> Seq<
    StepView,
> {
    let bin = join_spec(data_dir, "bin"@);
    seq![
        StepView::Reap { pid_file: join_spec(data_dir, pid_file_name()) },
        StepView::EnsureDir { path: bin },
        StepView::Stage {
            source: join_spec(root, "d1-shim/d1-shim"@),
            dest: join_spec(bin, "d1-shim"@),
        },
        StepView::Stage {
            source: join_spec(root, "workerd/workerd"@),
            dest: join_spec(bin, "workerd"@),
        },
        StepView::Require { path: join_spec(root, "workerd/config/workerd.desktop.capnp"@) },
        StepView::EnsureDir { path: join_spec(data_dir, "d1"@) },
        StepView::EnsureDir { path: join_spec(data_dir, "durable_objects"@) },
        StepView::Spawn {
            label: "d1-shim"@,
            command: d1_shim_command(data_dir, env),
            conditions: Seq::empty(),
        },
        StepView::Spawn {
            label: "workerd-frontend"@,
            command: frontend_command(root, data_dir, env),
            conditions: frontend_conditions(root),
        },
        StepView::WaitHealth { port: frontend_port(env), conditions: frontend_conditions(root) },
        StepView::Spawn {
            label: "workerd"@,
            command: workerd_command(root, data_dir, env),
            conditions: Seq::empty(),
        },
        StepView::WaitHealth { port: controlplane_port(env), conditions: Seq::empty() },
        StepView::WritePidFile { path: join_spec(data_dir, pid_file_name()) },
    ]
}

/// Why the services are not started.
#[derive(Clone, Copy, PartialEq, Eq, Debug)]
pub enum StartupSkip {
    /// The environment disables the startup.
    AutostartDisabled,
    /// The startup is not wired for this host.
    HostNotWired,
    /// No directory holds the bundled services.
    ResourcesNotFound,
    /// The directory for the data of the application is not known.
    NoDataDir,
}

/// Why the services are not started, if they are not: the switch of the
/// environment is `0`, the host is Windows, or the resource root or
/// the data directory is missing, asked in this order.
pub open spec fn startup_skip(
    env: StartupEnvView,
    os: HostOs,
    root: Option<Seq<char>>,
    data_dir: Option<Seq<char>>,
) -> Option<StartupSkip> {
    if env.autostart == Some("0"@) {
        Some(StartupSkip::AutostartDisabled)
    } else if os == HostOs::Windows {
        Some(StartupSkip::HostNotWired)
    } else if root is None {
        Some(StartupSkip::ResourcesNotFound)
    } else if data_dir is None {
        Some(StartupSkip::NoDataDir)
    } else {
        None
    }
}

/// Adds `step` to `steps`.
fn push_step(steps: &mut Vec<StartupStep>, step: StartupStep)
    ensures
        steps_view(final(steps)@) == steps_view(old(steps)@).push(step@),
{
    steps.push(step);
    assert(steps_view(steps@) =~= steps_view(old(steps)@).push(step@));
}

/// Builds the arguments with which every worker runtime begins.
fn build_serve_args(root: &str) -> (out: Vec<String>)
    ensures
        texts(out@) == serve_args(root@),
{
    let mut args = no_texts();
    push_text(&mut args, "serve");
    push_text(&mut args, "--experimental");
    push_text(&mut args, "--import-path");
    let import = join_paths(root, "workerd");
    push_text(&mut args, import.as_str());
    push_text(&mut args, "--import-path");
    push_text(&mut args, root);
    assert(texts(args@) =~= serve_args(root@));
    args
}

/// An empty list of pairs.
fn no_pairs() -> (out: Vec<(String, String)>)
    ensures
        pairs(out@) == Seq::<(Seq<char>, Seq<char>)>::empty(),
{
    let out: Vec<(String, String)> = Vec::new();
    assert(pairs(out@) =~= Seq::<(Seq<char>, Seq<char>)>::empty());
    out
}

/// Builds the command that starts the database shim.
fn build_d1_shim_command(data_dir: &str, env: &StartupEnv) -> (out: CommandSpec)
    ensures
        out@ == d1_shim_command(data_dir@, env@),
{
    let bin = join_paths(data_dir, "bin");
    let program = join_paths(bin.as_str(), "d1-shim");
    let d1 = join_paths(data_dir, "d1");
    let db = join_paths(d1.as_str(), "controlplane.sqlite");
    let addr = value_or(&env.d1_shim_addr, "127.0.0.1:9001");
    proof {
        reveal_strlit("");
        assert(""@ =~= Seq::<char>::empty());
    }
    let debug = value_or(&env.d1_shim_debug, "");
    let mut vars = no_pairs();
    push_pair(&mut vars, "D1_SQLITE_PATH", db.as_str());
    push_pair(&mut vars, "D1_SHIM_ADDR", addr.as_str());
    push_pair(&mut vars, "D1_SHIM_DEBUG", debug.as_str());
    assert(pairs(vars@) =~= d1_shim_command(data_dir@, env@).env);
    CommandSpec { program, args: no_texts(), env: vars, quiet: false }
}

/// Builds the command that starts the frontend.
fn build_frontend_command(root: &str, data_dir: &str, env: &StartupEnv) -> (out: CommandSpec)
    ensures
        out@ == frontend_command(root@, data_dir@, env@),
{
    let bin = join_paths(data_dir, "bin");
    let program = join_paths(bin.as_str(), "workerd");
    let port = value_or(&env.frontend_port, "8788");
    let api_port = value_or(&env.controlplane_port, "8787");
    let mut args = build_serve_args(root);
    let ghost head = texts(args@);
    push_text(&mut args, "--directory-path");
    let assets = join_paths(root, "frontend/assets");
    let assets_arg = concat2("assets-dir=", assets.as_str());
    push_text(&mut args, assets_arg.as_str());
    push_text(&mut args, "--socket-addr");
    let socket = concat2("http=127.0.0.1:", port.as_str());
    push_text(&mut args, socket.as_str());
    let config = join_paths(root, "workerd/config/workerd.frontend.capnp");
    push_text(&mut args, config.as_str());
    assert(texts(args@) =~= frontend_command(root@, data_dir@, env@).args);
    let api = concat2("http://localhost:", api_port.as_str());
    let site = concat2("http://localhost:", port.as_str());
    let mut vars = no_pairs();
    push_pair(&mut vars, "NEXT_PUBLIC_API_URL", api.as_str());
    push_pair(&mut vars, "NEXT_PUBLIC_SITE_URL", site.as_str());
    push_pair(&mut vars, "NEXT_PUBLIC_DEV_MODE_ENABLED", "true");
    push_pair(&mut vars, "NEXT_PUBLIC_DESKTOP_MODE", "true");
    assert(pairs(vars@) =~= frontend_command(root@, data_dir@, env@).env);
    CommandSpec { program, args, env: vars, quiet: false }
}

/// Builds the command that starts the control plane.
fn build_workerd_command(root: &str, data_dir: &str, env: &StartupEnv) -> (out: CommandSpec)
    ensures
        out@ == workerd_command(root@, data_dir@, env@),
{
    let bin = join_paths(data_dir, "bin");
    let program = join_paths(bin.as_str(), "workerd");
    let port = value_or(&env.controlplane_port, "8787");
    let front_port = value_or(&env.frontend_port, "8788");
    let mut args = build_serve_args(root);
    push_text(&mut args, "--socket-addr");
    let socket = concat2("http=127.0.0.1:", port.as_str());
    push_text(&mut args, socket.as_str());
    push_text(&mut args, "--directory-path");
    let storage = join_paths(data_dir, "durable_objects");
    let storage_arg = concat2("do-storage=", storage.as_str());
    push_text(&mut args, storage_arg.as_str());
    let config = join_paths(root, "workerd/config/workerd.desktop.capnp");
    push_text(&mut args, config.as_str());
    assert(texts(args@) =~= workerd_command(root@, data_dir@, env@).args);
    let local = concat2("http://localhost:", front_port.as_str());
    let sandbox_url = value_or(&env.sandbox_url, "http://127.0.0.1:8080");
    let sandbox_token = value_or(&env.sandbox_internal_token, "dev-sandbox-token");
    let api_token = value_or(&env.internal_api_token, "dev-internal-token");
    let dev_auth = value_or(&env.dev_auth_enabled, "true");
    let origins = value_or(&env.allowed_origins, local.as_str());
    let frontend_url = value_or(&env.frontend_url, local.as_str());
    let mut vars = no_pairs();
    push_pair(&mut vars, "D1_HTTP_URL", "http://d1-shim");
    push_pair(&mut vars, "SANDBOX_URL", sandbox_url.as_str());
    push_pair(&mut vars, "SANDBOX_INTERNAL_TOKEN", sandbox_token.as_str());
    push_pair(&mut vars, "INTERNAL_API_TOKEN", api_token.as_str());
    push_pair(&mut vars, "DEV_AUTH_ENABLED", dev_auth.as_str());
    push_pair(&mut vars, "ALLOWED_ORIGINS", origins.as_str());
    push_pair(&mut vars, "FRONTEND_URL", frontend_url.as_str());
    match &env.d1_shim_debug {
        Some(v) => {
            push_pair(&mut vars, "D1_SHIM_DEBUG", v.as_str());
        },
        None => {},
    }
    assert(pairs(vars@) =~= workerd_env(env@));
    CommandSpec { program, args, env: vars, quiet: false }
}

/// Builds the list of what the frontend needs.
fn build_frontend_conditions(root: &str) -> (out: Vec<String>)
    ensures
        texts(out@) == frontend_conditions(root@),
{
    let mut out = no_texts();
    let config = join_paths(root, "workerd/config/workerd.frontend.capnp");
    push_text(&mut out, config.as_str());
    let assets = join_paths(root, "frontend/assets");
    push_text(&mut out, assets.as_str());
    assert(texts(out@) =~= frontend_conditions(root@));
    out
}

/// The port of the sandbox: the one that the environment names, where
/// it names a port, else 8080.
pub open spec fn sandbox_port_of(env: StartupEnvView) -> u16 {
    match env.sandbox_port {
        Some(text) => match parse_unsigned(text, 65535) {
            Some(port) => port as u16,
            None => 8080,
        },
        None => 8080,
    }
}

/// The kernel command line of the sandbox on the host `os`.
pub open spec fn sandbox_cmdline(os: HostOs) -> Seq<char> {
    if os == HostOs::MacOS {
        "console=hvc0 earlycon=virtio_console keep_bootcon root=/dev/vda rw loglevel=7 ignore_loglevel rdinit=/init"@
    } else {
        "console=ttyS0 root=/dev/vda rw quiet"@
    }
}

/// The variables of the sandbox process: its port, its token, the
/// origins it allows, and where its workspace is.
pub open spec fn sandbox_env(env: StartupEnvView) -> Seq<(Seq<char>, Seq<char>)> {
    upsert(
        upsert(
            upsert(
                upsert(Seq::empty(), "PORT"@, decimal(sandbox_port_of(env) as nat)),
                "SANDBOX_INTERNAL_TOKEN"@,
                or_default(env.sandbox_internal_token, "dev-sandbox-token"@),
            ),
            "ALLOWED_ORIGINS"@,
            or_default(env.allowed_origins, "http://localhost:8788"@),
        ),
        "WORKSPACE_BASE"@,
        "/workspace"@,
    )
}

/// The configuration of the sandbox machine: 2 virtual CPUs, 2 GiB of
/// memory, the staged artifacts, and the kernel command line of the
/// host.
pub open spec fn sandbox_config(
    staged: ResourcePathsView,
    workspace_dir: Seq<char>,
    env: StartupEnvView,
    os: HostOs,
) -> VMConfigView {
    VMConfigView {
        image_path: staged.image,
        workspace_path: workspace_dir,
        cpus: 2,
        memory_bytes: 2147483648,
        sandbox_port: sandbox_port_of(env),
        env: sandbox_env(env),
        kernel_path: staged.kernel,
        initrd_path: staged.initrd,
        kernel_cmdline: Some(sandbox_cmdline(os)),
        vz_helper_path: staged.vz_helper,
    }
}

/// Reads the port of the sandbox from the environment.
pub fn sandbox_port(env: &StartupEnv) -> (out: u16)
    ensures
        out == sandbox_port_of(env@),
{
    match &env.sandbox_port {
        Some(text) => {
            let chars = chars_of(text.as_str());
            match read_unsigned(&chars, 65535) {
                Some(port) => port as u16,
                None => 8080,
            }
        },
        None => 8080,
    }
}

/// Builds the configuration of the sandbox machine for the staged
/// artifacts `staged` and the workspace `workspace_dir`.
pub fn sandbox_vm_config(
    staged: &VMResourcePaths,
    workspace_dir: &str,
    env: &StartupEnv,
    os: HostOs,
) -> (out: VMConfig)
    ensures
        out@ == sandbox_config(staged@, workspace_dir@, env@, os),
        out.wf(),
{
    let port = sandbox_port(env);
    let port_text = decimal_string(port as u64);
    let token = value_or(&env.sandbox_internal_token, "dev-sandbox-token");
    let origins = value_or(&env.allowed_origins, "http://localhost:8788");
    let mut config = VMConfig::new(staged.image.clone(), workspace_dir.to_owned()).with_cpus(
        2,
    ).with_memory(2147483648).with_port(port).with_env("PORT", port_text.as_str()).with_env(
        "SANDBOX_INTERNAL_TOKEN",
        token.as_str(),
    ).with_env("ALLOWED_ORIGINS", origins.as_str()).with_env("WORKSPACE_BASE", "/workspace");
    match &staged.kernel {
        Some(kernel) => {
            config = config.with_kernel(kernel.clone());
        },
        None => {},
    }
    match &staged.initrd {
        Some(initrd) => {
            config = config.with_initrd(initrd.clone());
        },
        None => {},
    }
    match &staged.vz_helper {
        Some(helper) => {
            config = config.with_vz_helper(helper.clone());
        },
        None => {},
    }
    let cmdline = match os {
        HostOs::MacOS => "console=hvc0 earlycon=virtio_console keep_bootcon root=/dev/vda rw loglevel=7 ignore_loglevel rdinit=/init",
        _ => "console=ttyS0 root=/dev/vda rw quiet",
    };
    config.with_cmdline(cmdline)
}

/// The time that the sandbox is given to become healthy, in
/// milliseconds.
pub const SANDBOX_HEALTH_TIMEOUT_MS: u64 = 120000;

/// The time that the services are given to end when asked, in
/// milliseconds, at a shutdown.
pub const SHUTDOWN_GRACE_MS: u64 = 2000;

/// One step of a shutdown.
pub enum ShutdownStep {
    /// Stop the machine as the plan says.
    StopVm(StopPlan),
    /// Ask the service to end.
    Terminate(u32),
    /// Wait this many milliseconds.
    Wait(u64),
    /// End the service by force and wait for it.
    Kill(u32),
    /// Remove the file of processes.
    RemovePidFile(String),
}

/// A `ShutdownStep` as a plain value.
pub enum ShutdownStepView {
    StopVm(StopPlanView),
    Terminate(u32),
    Wait(u64),
    Kill(u32),
    RemovePidFile(Seq<char>),
}

impl View for ShutdownStep {
    type V = ShutdownStepView;

    open spec fn view(&self) -> ShutdownStepView {
        match self {
            ShutdownStep::StopVm(plan) => ShutdownStepView::StopVm(plan@),
            ShutdownStep::Terminate(pid) => ShutdownStepView::Terminate(*pid),
            ShutdownStep::Wait(ms) => ShutdownStepView::Wait(*ms),
            ShutdownStep::Kill(pid) => ShutdownStepView::Kill(*pid),
            ShutdownStep::RemovePidFile(path) => ShutdownStepView::RemovePidFile(path@),
        }
    }
}

/// The views of the steps in `v`.
pub open spec fn shutdown_view(v: Seq<ShutdownStep>) -> Seq<ShutdownStepView> {
    Seq::new(v.len(), |i: int| v[i]@)
}

/// How a machine is stopped.
pub open spec fn stop_plan(vm: PlatformView) -> StopPlanView {
    StopPlanView { kill: vm.to_kill(), remove: vm.to_remove(), run: vm.to_run() }
}

/// The steps of a shutdown, in order: the machine is stopped, where
/// there is one; every service is asked to end; the grace period
/// passes; every service is ended by force; and the file of processes
/// is removed, where the data directory is known.
pub open spec fn shutdown_steps(
    vm: Option<PlatformView>,
    children: Seq<u32>,
    data_dir: Option<Seq<char>>,
) -> Seq<ShutdownStepView> {
    (match vm {
        Some(vm) => seq![ShutdownStepView::StopVm(stop_plan(vm))],
        None => Seq::empty(),
    }) + Seq::new(children.len(), |i: int| ShutdownStepView::Terminate(children[i])) + seq![
        ShutdownStepView::Wait(SHUTDOWN_GRACE_MS),
    ] + Seq::new(children.len(), |i: int| ShutdownStepView::Kill(children[i])) + (match data_dir {
        Some(dir) => seq![ShutdownStepView::RemovePidFile(join_spec(dir, pid_file_name()))],
        None => Seq::empty(),
    })
}

/// In a shutdown the machine is stopped before any service is asked to
/// end, every service is asked before the grace period, and none is
/// ended by force before it.
pub proof fn law_shutdown_order(
    vm: Option<PlatformView>,
    children: Seq<u32>,
    data_dir: Option<Seq<char>>,
)
    ensures
        ({
            let steps = shutdown_steps(vm, children, data_dir);
            let first = if vm is Some {
                1int
            } else {
                0int
            };
            let wait = first + children.len();
            &&& vm is Some ==> steps[0] is StopVm
            &&& forall|i: int| 0 <= i < steps.len() && #[trigger] steps[i] is StopVm ==> i == 0
            &&& steps[wait] == ShutdownStepView::Wait(SHUTDOWN_GRACE_MS)
            &&& forall|i: int|
                0 <= i < steps.len() && #[trigger] steps[i] is Terminate ==> first <= i < wait
            &&& forall|i: int|
                0 <= i < steps.len() && #[trigger] steps[i] is Kill ==> wait < i <= wait
                    + children.len()
            &&& forall|k: int|
                0 <= k < children.len() ==> steps[first + k] == ShutdownStepView::Terminate(
                    children[k],
                ) && steps[wait + 1 + k] == ShutdownStepView::Kill(children[k])
            &&& forall|i: int|
                0 <= i < steps.len() && #[trigger] steps[i] is RemovePidFile ==> i == steps.len()
                    - 1
        }),
{
}

/// Adds `step` to `steps`.
fn push_shutdown(steps: &mut Vec<ShutdownStep>, step: ShutdownStep)
    ensures
        shutdown_view(final(steps)@) == shutdown_view(old(steps)@).push(step@),
{
    steps.push(step);
    assert(shutdown_view(steps@) =~= shutdown_view(old(steps)@).push(step@));
}

/// The file of processes as it is to be written.
pub struct PidFile {
    pub path: String,
    pub contents: String,
}

/// A `PidFile` as a plain value.
pub struct PidFileView {
    pub path: Seq<char>,
    pub contents: Seq<char>,
}

impl View for PidFile {
    type V = PidFileView;

    open spec fn view(&self) -> PidFileView {
        PidFileView { path: self.path@, contents: self.contents@ }
    }
}

/// How far the bring-up of the sandbox machine has come.
#[derive(Clone, Copy, PartialEq, Eq, Debug)]
pub enum SandboxPhase {
    /// The artifacts are being staged.
    Staging,
    /// The workspace of the machine is being created.
    MakingWorkspace,
    /// The machine is being started.
    Starting,
    /// The health of the sandbox is being waited for.
    WaitingForHealth,
    /// A machine that did not come up is being stopped.
    Stopping,
    /// The file of processes is being written with the machine in it.
    Writing,
    /// The bring-up is over.
    Finished,
}

/// The bring-up of the sandbox machine in progress.
pub struct SandboxStage {
    pub phase: SandboxPhase,
    pub os: HostOs,
    /// What the environment says of the sandbox.
    pub env: StartupEnv,
    /// The workspace of the machine.
    pub workspace_dir: String,
    /// Where the artifacts are, once they are staged.
    pub staged: Option<VMResourcePaths>,
    /// The error with which the bring-up ends once the machine is
    /// stopped.
    pub error: Option<VMError>,
}

/// The view of staged artifacts that may be absent.
pub open spec fn opt_paths(p: Option<VMResourcePaths>) -> Option<ResourcePathsView> {
    match p {
        Some(p) => Some(p@),
        None => None,
    }
}

/// The view of an error that may be absent.
pub open spec fn opt_error(e: Option<VMError>) -> Option<VMErrorView> {
    match e {
        Some(e) => Some(e@),
        None => None,
    }
}

/// A `SandboxStage` as a plain value.
pub struct SandboxStageView {
    pub phase: SandboxPhase,
    pub os: HostOs,
    pub env: StartupEnvView,
    pub workspace_dir: Seq<char>,
    pub staged: Option<ResourcePathsView>,
    pub error: Option<VMErrorView>,
}

impl View for SandboxStage {
    type V = SandboxStageView;

    open spec fn view(&self) -> SandboxStageView {
        SandboxStageView {
            phase: self.phase,
            os: self.os,
            env: self.env@,
            workspace_dir: self.workspace_dir@,
            staged: opt_paths(self.staged),
            error: opt_error(self.error),
        }
    }
}

/// What the caller reports of the bring-up of the sandbox machine.
pub enum SandboxEvent {
    /// How the staging ended: where the artifacts are, or the error.
    Staged(Result<VMResourcePaths, VMError>),
    /// How creating the workspace ended.
    WorkspaceMade(Result<(), std::io::Error>),
    /// How the start of the machine ended.
    Started(Result<(), VMError>),
    /// How the wait for the health of the sandbox ended.
    Healthy(Result<(), VMError>),
    /// The request was carried out.
    Done,
}

/// A `SandboxEvent` as a plain value.
pub enum SandboxEventView {
    Staged(Result<ResourcePathsView, VMErrorView>),
    WorkspaceMade(Result<(), std::io::Error>),
    Started(Result<(), VMErrorView>),
    Healthy(Result<(), VMErrorView>),
    Done,
}

/// The view of how a step that gives nothing ended.
pub open spec fn unit_result(r: Result<(), VMError>) -> Result<(), VMErrorView> {
    match r {
        Ok(_) => Ok(()),
        Err(e) => Err(e@),
    }
}

impl View for SandboxEvent {
    type V = SandboxEventView;

    open spec fn view(&self) -> SandboxEventView {
        match self {
            SandboxEvent::Staged(Ok(paths)) => SandboxEventView::Staged(Ok(paths@)),
            SandboxEvent::Staged(Err(e)) => SandboxEventView::Staged(Err(e@)),
            SandboxEvent::WorkspaceMade(r) => SandboxEventView::WorkspaceMade(*r),
            SandboxEvent::Started(r) => SandboxEventView::Started(unit_result(*r)),
            SandboxEvent::Healthy(r) => SandboxEventView::Healthy(unit_result(*r)),
            SandboxEvent::Done => SandboxEventView::Done,
        }
    }
}

/// What the bring-up of the sandbox machine asks its caller to do.
pub enum SandboxRequest {
    /// Stage the artifacts as the plan says.
    Stage(ResourcePlan),
    /// Create the workspace of the machine.
    CreateWorkspace(String),
    /// Start the machine that stands in the slot with this
    /// configuration.
    Start(VMConfig),
    /// Wait for the health of the sandbox, this many milliseconds at
    /// most.
    WaitForHealth(u64),
    /// Write the file of processes.
    WritePidFile(PidFile),
    /// Carry out the stop of the machine.
    Stop(StopPlan),
    /// The bring-up is over.
    Finish(Result<(), VMError>),
}

/// A `SandboxRequest` as a plain value.
pub enum SandboxRequestView {
    Stage(ResourcePlanView),
    CreateWorkspace(Seq<char>),
    Start(VMConfigView),
    WaitForHealth(u64),
    WritePidFile(PidFileView),
    Stop(StopPlanView),
    Finish(Result<(), VMErrorView>),
}

impl View for SandboxRequest {
    type V = SandboxRequestView;

    open spec fn view(&self) -> SandboxRequestView {
        match self {
            SandboxRequest::Stage(plan) => SandboxRequestView::Stage(plan@),
            SandboxRequest::CreateWorkspace(dir) => SandboxRequestView::CreateWorkspace(dir@),
            SandboxRequest::Start(config) => SandboxRequestView::Start(config@),
            SandboxRequest::WaitForHealth(ms) => SandboxRequestView::WaitForHealth(*ms),
            SandboxRequest::WritePidFile(file) => SandboxRequestView::WritePidFile(file@),
            SandboxRequest::Stop(plan) => SandboxRequestView::Stop(plan@),
            SandboxRequest::Finish(r) => SandboxRequestView::Finish(unit_result(*r)),
        }
    }
}

/// What a step of the bring-up does to the machine in the slot.
#[derive(Clone, Copy, PartialEq, Eq, Debug)]
pub enum SlotChange {
    /// The slot stays as it is.
    Keep,
    /// The backend of the host is put into the slot, not started.
    Fresh,
    /// The machine in the slot is stopped.
    Stop,
    /// The machine is taken from the slot and becomes the machine of
    /// the supervisor.
    Adopt,
}

/// What a step of the bring-up gives: the stage after it, what becomes
/// of the machine in the slot, and the next request.
pub struct SandboxOutcome {
    pub stage: SandboxStageView,
    pub slot: SlotChange,
    pub request: SandboxRequestView,
}

/// The bring-up ends with `error`: after the stop of the machine where
/// one stands in the slot, else at once.
pub open spec fn sandbox_failure(
    stage: SandboxStageView,
    vm: Option<PlatformView>,
    error: VMErrorView,
) -> SandboxOutcome {
    match vm {
        Some(machine) => SandboxOutcome {
            stage: SandboxStageView { phase: SandboxPhase::Stopping, error: Some(error), ..stage },
            slot: SlotChange::Stop,
            request: SandboxRequestView::Stop(stop_plan(machine)),
        },
        None => SandboxOutcome {
            stage: SandboxStageView { phase: SandboxPhase::Finished, error: None, ..stage },
            slot: SlotChange::Keep,
            request: SandboxRequestView::Finish(Err(error)),
        },
    }
}

/// The error of an event that does not answer the request at hand.
pub open spec fn unexpected_event() -> VMErrorView {
    VMErrorView::StartFailed("Unexpected event"@)
}

/// The error that an event reports, or the error of an event that does
/// not answer the request at hand.
pub open spec fn event_error(event: SandboxEventView) -> VMErrorView {
    match event {
        SandboxEventView::Staged(Err(e)) => e,
        SandboxEventView::WorkspaceMade(Err(e)) => VMErrorView::Io(e),
        SandboxEventView::Started(Err(e)) => e,
        SandboxEventView::Healthy(Err(e)) => e,
        _ => unexpected_event(),
    }
}

/// How the bring-up of the sandbox machine begins: with the staging
/// where the image exists, else over, for the machine is optional.
pub open spec fn sandbox_begin(
    data_dir: Seq<char>,
    env: StartupEnvView,
    os: HostOs,
    image_exists: bool,
) -> SandboxStageView {
    SandboxStageView {
        phase: if image_exists {
            SandboxPhase::Staging
        } else {
            SandboxPhase::Finished
        },
        os,
        env,
        workspace_dir: join_on_spec(data_dir, "workspace"@, os),
        staged: None,
        error: None,
    }
}

/// Whether the machine in the slot, where there is one, has its books
/// in order.
pub open spec fn slot_wf(vm: Option<PlatformVM>) -> bool {
    vm is Some ==> vm->0.wf()
}

/// What a change of the slot means for the machine in the slot, before
/// and after, and for the machine of the supervisor, before and after.
pub open spec fn slot_changed(
    change: SlotChange,
    os: HostOs,
    slot_before: Option<PlatformVM>,
    slot_after: Option<PlatformVM>,
    own_before: Option<PlatformVM>,
    own_after: Option<PlatformVM>,
) -> bool {
    match change {
        SlotChange::Keep => slot_after == slot_before && own_after == own_before,
        SlotChange::Fresh => {
            &&& own_after == own_before
            &&& slot_after is Some
            &&& slot_after->0.idle()
            &&& !slot_after->0.running()
            &&& slot_after->0.process() is None
            &&& (os == HostOs::MacOS ==> slot_after->0 is MacOS)
            &&& (os == HostOs::Windows ==> slot_after->0 is Windows)
            &&& (os == HostOs::Linux ==> slot_after->0 is Linux)
        },
        SlotChange::Stop => {
            &&& own_after == own_before
            &&& slot_before is Some
            &&& slot_after is Some
            &&& slot_after->0@ == slot_before->0@.stopped()
        },
        SlotChange::Adopt => slot_after is None && slot_before is Some && own_after
            == slot_before,
    }
}

/// The error that `event` reports, or the error of an event that does
/// not answer the request at hand.
fn event_failure(event: SandboxEvent) -> (out: VMError)
    ensures
        out@ == event_error(event@),
{
    match event {
        SandboxEvent::Staged(Err(e)) => e,
        SandboxEvent::WorkspaceMade(Err(e)) => VMError::Io(e),
        SandboxEvent::Started(Err(e)) => e,
        SandboxEvent::Healthy(Err(e)) => e,
        _ => VMError::StartFailed("Unexpected event".to_owned()),
    }
}

/// The next step of the bring-up of the sandbox machine.
///
/// The artifacts are staged, the workspace is made, the backend of the
/// host is started and its health is waited for; only a machine that
/// is healthy becomes the machine of the supervisor, and only then is
/// the file of processes written with its process in it. A stage that
/// fails ends the bring-up with its error, after the machine is
/// stopped where one was put into the slot.
pub open spec fn sandbox_next(
    stage: SandboxStageView,
    children: Seq<u32>,
    data_dir: Option<Seq<char>>,
    vm: Option<PlatformView>,
    event: SandboxEventView,
) -> SandboxOutcome {
    match (stage.phase, event) {
        (SandboxPhase::Staging, SandboxEventView::Staged(Ok(staged))) => SandboxOutcome {
            stage: SandboxStageView {
                phase: SandboxPhase::MakingWorkspace,
                staged: Some(staged),
                ..stage
            },
            slot: SlotChange::Keep,
            request: SandboxRequestView::CreateWorkspace(stage.workspace_dir),
        },
        (SandboxPhase::MakingWorkspace, SandboxEventView::WorkspaceMade(Ok(_))) => if stage.os
            == HostOs::Other {
            sandbox_failure(
                stage,
                None,
                VMErrorView::UnsupportedPlatform(crate::vm::backend_name(stage.os)),
            )
        } else if stage.staged is None {
            sandbox_failure(stage, None, unexpected_event())
        } else {
            SandboxOutcome {
                stage: SandboxStageView { phase: SandboxPhase::Starting, ..stage },
                slot: SlotChange::Fresh,
                request: SandboxRequestView::Start(
                    sandbox_config(stage.staged->0, stage.workspace_dir, stage.env, stage.os),
                ),
            }
        },
        (SandboxPhase::Starting, SandboxEventView::Started(Ok(_))) => SandboxOutcome {
            stage: SandboxStageView { phase: SandboxPhase::WaitingForHealth, ..stage },
            slot: SlotChange::Keep,
            request: SandboxRequestView::WaitForHealth(SANDBOX_HEALTH_TIMEOUT_MS),
        },
        (SandboxPhase::WaitingForHealth, SandboxEventView::Healthy(Ok(_))) => match vm {
            Some(machine) => match data_dir {
                Some(dir) => SandboxOutcome {
                    stage: SandboxStageView { phase: SandboxPhase::Writing, ..stage },
                    slot: SlotChange::Adopt,
                    request: SandboxRequestView::WritePidFile(
                        PidFileView {
                            path: join_spec(dir, pid_file_name()),
                            contents: pid_lines(pids_to_list(children, machine.process())),
                        },
                    ),
                },
                None => SandboxOutcome {
                    stage: SandboxStageView { phase: SandboxPhase::Finished, ..stage },
                    slot: SlotChange::Adopt,
                    request: SandboxRequestView::Finish(Ok(())),
                },
            },
            None => sandbox_failure(
                stage,
                None,
                VMErrorView::StartFailed("No machine was started"@),
            ),
        },
        (SandboxPhase::Stopping, _) => SandboxOutcome {
            stage: SandboxStageView { phase: SandboxPhase::Finished, error: None, ..stage },
            slot: SlotChange::Keep,
            request: SandboxRequestView::Finish(
                Err(
                    match stage.error {
                        Some(e) => e,
                        None => unexpected_event(),
                    },
                ),
            ),
        },
        (SandboxPhase::Writing, _) => SandboxOutcome {
            stage: SandboxStageView { phase: SandboxPhase::Finished, ..stage },
            slot: SlotChange::Keep,
            request: SandboxRequestView::Finish(Ok(())),
        },
        (SandboxPhase::Finished, _) => SandboxOutcome {
            stage,
            slot: SlotChange::Keep,
            request: SandboxRequestView::Finish(
                Err(VMErrorView::StartFailed("No bring-up is in progress"@)),
            ),
        },
        (SandboxPhase::Starting, _) => sandbox_failure(stage, vm, event_error(event)),
        (SandboxPhase::WaitingForHealth, _) => sandbox_failure(stage, vm, event_error(event)),
        _ => sandbox_failure(stage, None, event_error(event)),
    }
}

/// The services that run, the machine, and where the data are.
pub struct DesktopServices {
    /// The processes of the services, in the order in which they were
    /// started.
    pub children: Vec<u32>,
    pub sandbox_vm: Option<PlatformVM>,
    pub data_dir: Option<String>,
}

/// The view of a machine that may be absent.
pub open spec fn opt_vm(vm: Option<PlatformVM>) -> Option<PlatformView> {
    match vm {
        Some(vm) => Some(vm@),
        None => None,
    }
}

impl DesktopServices {
    /// The machine, where there is one, has its books in order.
    pub open spec fn wf(&self) -> bool {
        self.sandbox_vm is Some ==> self.sandbox_vm->0.wf()
    }

    /// A supervisor of nothing yet.
    pub fn new() -> (out: Self)
        ensures
            out.wf(),
            out.children@.len() == 0,
            out.sandbox_vm is None,
            out.data_dir is None,
    {
        DesktopServices { children: Vec::new(), sandbox_vm: None, data_dir: None }
    }

    /// Plans the startup of the services from the resource root
    /// `resource_root` with the data below `data_dir`.
    ///
    /// Nothing is started where the environment disables the startup,
    /// on a Windows host, and without resource root or data directory.
    /// Else the data directory is kept for the file of processes and
    /// the steps are given.
    pub fn start(
        &mut self,
        env: &StartupEnv,
        os: HostOs,
        resource_root: Option<&str>,
        data_dir: Option<&str>,
    ) -> (out: Result<Vec<StartupStep>, StartupSkip>)
        requires
            old(self).wf(),
        ensures
            final(self).wf(),
            final(self).children == old(self).children,
            final(self).sandbox_vm == old(self).sandbox_vm,
            out is Err == startup_skip(env@, os, opt_str(resource_root), opt_str(data_dir)) is Some,
            out is Err ==> Some(out->Err_0) == startup_skip(
                env@,
                os,
                opt_str(resource_root),
                opt_str(data_dir),
            ) && final(self).data_dir == old(self).data_dir,
            out is Ok ==> steps_view(out->Ok_0@) == startup_steps(
                resource_root->0@,
                data_dir->0@,
                env@,
            ) && opt_text(final(self).data_dir) == Some(data_dir->0@),
    {
        let disabled = match &env.autostart {
            Some(value) => {
                let zero = "0".to_owned();
                *value == zero
            },
            None => false,
        };
        if disabled {
            return Err(StartupSkip::AutostartDisabled);
        }
        match os {
            HostOs::Windows => {
                return Err(StartupSkip::HostNotWired);
            },
            _ => {},
        }
        let root = match resource_root {
            None => {
                return Err(StartupSkip::ResourcesNotFound);
            },
            Some(root) => root,
        };
        let data = match data_dir {
            None => {
                return Err(StartupSkip::NoDataDir);
            },
            Some(data) => data,
        };
        self.data_dir = Some(data.to_owned());
        let bin = join_paths(data, "bin");
        let mut steps: Vec<StartupStep> = Vec::new();
        assert(steps_view(steps@) =~= Seq::empty());
        push_step(&mut steps, StartupStep::Reap { pid_file: pid_file_path(data) });
        push_step(&mut steps, StartupStep::EnsureDir { path: bin.clone() });
        push_step(
            &mut steps,
            StartupStep::Stage {
                source: join_paths(root, "d1-shim/d1-shim"),
                dest: join_paths(bin.as_str(), "d1-shim"),
            },
        );
        push_step(
            &mut steps,
            StartupStep::Stage {
                source: join_paths(root, "workerd/workerd"),
                dest: join_paths(bin.as_str(), "workerd"),
            },
        );
        push_step(
            &mut steps,
            StartupStep::Require { path: join_paths(root, "workerd/config/workerd.desktop.capnp") },
        );
        push_step(&mut steps, StartupStep::EnsureDir { path: join_paths(data, "d1") });
        push_step(&mut steps, StartupStep::EnsureDir { path: join_paths(data, "durable_objects") });
        push_step(
            &mut steps,
            StartupStep::Spawn {
                label: "d1-shim".to_owned(),
                command: build_d1_shim_command(data, env),
                conditions: no_texts(),
            },
        );
        push_step(
            &mut steps,
            StartupStep::Spawn {
                label: "workerd-frontend".to_owned(),
                command: build_frontend_command(root, data, env),
                conditions: build_frontend_conditions(root),
            },
        );
        push_step(
            &mut steps,
            StartupStep::WaitHealth {
                port: value_or(&env.frontend_port, "8788"),
                conditions: build_frontend_conditions(root),
            },
        );
        push_step(
            &mut steps,
            StartupStep::Spawn {
                label: "workerd".to_owned(),
                command: build_workerd_command(root, data, env),
                conditions: no_texts(),
            },
        );
        push_step(
            &mut steps,
            StartupStep::WaitHealth {
                port: value_or(&env.controlplane_port, "8787"),
                conditions: no_texts(),
            },
        );
        push_step(&mut steps, StartupStep::WritePidFile { path: pid_file_path(data) });
        assert(steps_view(steps@) =~= startup_steps(root@, data@, env@));
        Ok(steps)
    }

    /// Decides whether the service `label` is started: its command
    /// where its binary exists, else the reason why not.
    pub fn spawn_binary(label: &str, command: CommandSpec, binary_exists: bool) -> (out: Result<
        CommandSpec,
        String,
    >)
        ensures
            out is Ok == binary_exists,
            out is Ok ==> out->Ok_0 == command,
            out is Err ==> out->Err_0@ == "Desktop service binary not found for "@ + label@ + ": "@
                + command.program@,
    {
        if binary_exists {
            Ok(command)
        } else {
            Err(
                crate::text::concat4(
                    "Desktop service binary not found for ",
                    label,
                    ": ",
                    command.program.as_str(),
                ),
            )
        }
    }

    /// Records that a service runs as the process `pid`.
    pub fn record_child(&mut self, pid: u32)
        ensures
            final(self).children@ == old(self).children@.push(pid),
            final(self).sandbox_vm == old(self).sandbox_vm,
            final(self).data_dir == old(self).data_dir,
    {
        self.children.push(pid);
    }

    /// The file of processes and its text for the services that run,
    /// where the data directory is known.
    pub fn pid_file(&self) -> (out: Option<PidFile>)
        ensures
            out is Some == self.data_dir is Some,
            out is Some ==> out->0.path@ == join_spec(self.data_dir->0@, pid_file_name())
                && out->0.contents@ == pid_lines(self.children@),
    {
        match &self.data_dir {
            Some(dir) => Some(
                PidFile {
                    path: pid_file_path(dir.as_str()),
                    contents: write_pid_file(&self.children, None),
                },
            ),
            None => None,
        }
    }

    /// Begins the bring-up of the sandbox machine for the artifacts
    /// `resources` with the data below `data_dir`.
    ///
    /// The machine is optional: where its image does not exist the
    /// bring-up is over at once and ends well, and no backend is made.
    /// Else the first request is the staging of the artifacts.
    pub fn start_sandbox_vm(
        data_dir: &str,
        resources: &VMResourcePaths,
        image_exists: bool,
        helper_exists: bool,
        env: StartupEnv,
        os: HostOs,
    ) -> (out: (SandboxStage, SandboxRequest))
        ensures
            out.0@ == sandbox_begin(data_dir@, env@, os, image_exists),
            !image_exists ==> out.1@ == SandboxRequestView::Finish(Ok(())),
            image_exists ==> out.1@ == SandboxRequestView::Stage(
                resource_plan(resources@, data_dir@, helper_exists, os),
            ),
    {
        let workspace_dir = join_on(data_dir, "workspace", os);
        if image_exists {
            let plan = stage_vm_resources(resources, data_dir, helper_exists, os);
            (
                SandboxStage {
                    phase: SandboxPhase::Staging,
                    os,
                    env,
                    workspace_dir,
                    staged: None,
                    error: None,
                },
                SandboxRequest::Stage(plan),
            )
        } else {
            (
                SandboxStage {
                    phase: SandboxPhase::Finished,
                    os,
                    env,
                    workspace_dir,
                    staged: None,
                    error: None,
                },
                SandboxRequest::Finish(Ok(())),
            )
        }
    }

    /// Ends the bring-up with `error`, after the stop of the machine
    /// in the slot where there is one.
    fn sandbox_fail(stage: &mut SandboxStage, vm: &mut Option<PlatformVM>, error: VMError) -> (request:
        SandboxRequest)
        requires
            slot_wf(*old(vm)),
        ensures
            final(stage)@ == sandbox_failure(old(stage)@, opt_vm(*old(vm)), error@).stage,
            request@ == sandbox_failure(old(stage)@, opt_vm(*old(vm)), error@).request,
            slot_wf(*final(vm)),
            (*old(vm)) is Some ==> (*final(vm)) is Some && (*final(vm))->0@ == (*old(
                vm,
            ))->0@.stopped(),
            (*old(vm)) is None ==> (*final(vm)) is None,
    {
        let mut slot: Option<PlatformVM> = None;
        std::mem::swap(&mut slot, vm);
        match slot {
            Some(machine) => {
                let mut machine = machine;
                let plan = machine.stop();
                *vm = Some(machine);
                stage.phase = SandboxPhase::Stopping;
                stage.error = Some(error);
                SandboxRequest::Stop(plan)
            },
            None => {
                stage.phase = SandboxPhase::Finished;
                stage.error = None;
                SandboxRequest::Finish(Err(error))
            },
        }
    }

    /// Takes what the caller reports of the bring-up of the sandbox
    /// machine and gives the next request. `vm` is the slot of the
    /// machine that is being brought up: the step puts the backend of
    /// the host into it before the start, stops the machine in it where
    /// the bring-up fails, and takes the machine from it once it is
    /// healthy.
    pub fn sandbox_step(
        &mut self,
        stage: &mut SandboxStage,
        vm: &mut Option<PlatformVM>,
        event: SandboxEvent,
    ) -> (request: SandboxRequest)
        requires
            old(self).wf(),
            slot_wf(*old(vm)),
        ensures
            final(self).wf(),
            final(self).children == old(self).children,
            final(self).data_dir == old(self).data_dir,
            slot_wf(*final(vm)),
            final(stage)@ == sandbox_next(
                old(stage)@,
                old(self).children@,
                opt_text(old(self).data_dir),
                opt_vm(*old(vm)),
                event@,
            ).stage,
            request@ == sandbox_next(
                old(stage)@,
                old(self).children@,
                opt_text(old(self).data_dir),
                opt_vm(*old(vm)),
                event@,
            ).request,
            slot_changed(
                sandbox_next(
                    old(stage)@,
                    old(self).children@,
                    opt_text(old(self).data_dir),
                    opt_vm(*old(vm)),
                    event@,
                ).slot,
                old(stage).os,
                *old(vm),
                *final(vm),
                old(self).sandbox_vm,
                final(self).sandbox_vm,
            ),
    {
        match (stage.phase, event) {
            (SandboxPhase::Staging, SandboxEvent::Staged(Ok(staged))) => {
                stage.phase = SandboxPhase::MakingWorkspace;
                stage.staged = Some(staged);
                SandboxRequest::CreateWorkspace(stage.workspace_dir.clone())
            },
            (SandboxPhase::MakingWorkspace, SandboxEvent::WorkspaceMade(Ok(_))) => {
                let machine = match create_platform_vm(stage.os) {
                    None => {
                        let name = vm_backend_name(stage.os);
                        let mut none: Option<PlatformVM> = None;
                        let request = DesktopServices::sandbox_fail(
                            stage,
                            &mut none,
                            VMError::UnsupportedPlatform(name.to_owned()),
                        );
                        return request;
                    },
                    Some(machine) => machine,
                };
                let config = match &stage.staged {
                    None => {
                        let mut none: Option<PlatformVM> = None;
                        let request = DesktopServices::sandbox_fail(
                            stage,
                            &mut none,
                            VMError::StartFailed("Unexpected event".to_owned()),
                        );
                        return request;
                    },
                    Some(staged) => sandbox_vm_config(
                        staged,
                        stage.workspace_dir.as_str(),
                        &stage.env,
                        stage.os,
                    ),
                };
                *vm = Some(machine);
                stage.phase = SandboxPhase::Starting;
                SandboxRequest::Start(config)
            },
            (SandboxPhase::Starting, SandboxEvent::Started(Ok(_))) => {
                stage.phase = SandboxPhase::WaitingForHealth;
                SandboxRequest::WaitForHealth(SANDBOX_HEALTH_TIMEOUT_MS)
            },
            (SandboxPhase::WaitingForHealth, SandboxEvent::Healthy(Ok(_))) => {
                let mut slot: Option<PlatformVM> = None;
                std::mem::swap(&mut slot, vm);
                match slot {
                    Some(machine) => {
                        let vm_pid = machine.pid();
                        self.sandbox_vm = Some(machine);
                        match &self.data_dir {
                            Some(dir) => {
                                stage.phase = SandboxPhase::Writing;
                                SandboxRequest::WritePidFile(
                                    PidFile {
                                        path: pid_file_path(dir.as_str()),
                                        contents: write_pid_file(&self.children, vm_pid),
                                    },
                                )
                            },
                            None => {
                                stage.phase = SandboxPhase::Finished;
                                SandboxRequest::Finish(Ok(()))
                            },
                        }
                    },
                    None => {
                        let mut none: Option<PlatformVM> = None;
                        DesktopServices::sandbox_fail(
                            stage,
                            &mut none,
                            VMError::StartFailed("No machine was started".to_owned()),
                        )
                    },
                }
            },
            (SandboxPhase::Stopping, _) => {
                let mut error: Option<VMError> = None;
                std::mem::swap(&mut error, &mut stage.error);
                stage.phase = SandboxPhase::Finished;
                match error {
                    Some(e) => SandboxRequest::Finish(Err(e)),
                    None => SandboxRequest::Finish(
                        Err(VMError::StartFailed("Unexpected event".to_owned())),
                    ),
                }
            },
            (SandboxPhase::Writing, _) => {
                stage.phase = SandboxPhase::Finished;
                SandboxRequest::Finish(Ok(()))
            },
            (SandboxPhase::Finished, _) => SandboxRequest::Finish(
                Err(VMError::StartFailed("No bring-up is in progress".to_owned())),
            ),
            (SandboxPhase::Starting, event) => {
                let error = event_failure(event);
                DesktopServices::sandbox_fail(stage, vm, error)
            },
            (SandboxPhase::WaitingForHealth, event) => {
                let error = event_failure(event);
                DesktopServices::sandbox_fail(stage, vm, error)
            },
            (_, event) => {
                let error = event_failure(event);
                let mut none: Option<PlatformVM> = None;
                DesktopServices::sandbox_fail(stage, &mut none, error)
            },
        }
    }

    /// Plans the shutdown and forgets the services; the machine stays
    /// known, stopped.
    pub fn shutdown(&mut self) -> (steps: Vec<ShutdownStep>)
        requires
            old(self).wf(),
        ensures
            final(self).wf(),
            final(self).children@.len() == 0,
            final(self).data_dir == old(self).data_dir,
            shutdown_view(steps@) == shutdown_steps(
                opt_vm(old(self).sandbox_vm),
                old(self).children@,
                opt_text(old(self).data_dir),
            ),
            old(self).sandbox_vm is Some ==> final(self).sandbox_vm is Some
                && final(self).sandbox_vm->0@ == old(self).sandbox_vm->0@.stopped(),
            old(self).sandbox_vm is None ==> final(self).sandbox_vm is None,
    {
        let mut steps: Vec<ShutdownStep> = Vec::new();
        assert(shutdown_view(steps@) =~= Seq::empty());
        let mut vm: Option<PlatformVM> = None;
        std::mem::swap(&mut vm, &mut self.sandbox_vm);
        match vm {
            Some(machine) => {
                let mut machine = machine;
                let stop = machine.stop();
                self.sandbox_vm = Some(machine);
                push_shutdown(&mut steps, ShutdownStep::StopVm(stop));
            },
            None => {},
        }
        let ghost head = shutdown_view(steps@);
        let mut children: Vec<u32> = Vec::new();
        std::mem::swap(&mut children, &mut self.children);
        let ghost pids = children@;
        let mut i: usize = 0;
        while i < children.len()
            invariant
                i <= children.len(),
                pids == children@,
                shutdown_view(steps@) == head + Seq::new(
                    i as nat,
                    |k: int| ShutdownStepView::Terminate(pids[k]),
                ),
            decreases children.len() - i,
        {
            push_shutdown(&mut steps, ShutdownStep::Terminate(children[i]));
            i = i + 1;
            assert(shutdown_view(steps@) =~= head + Seq::new(
                i as nat,
                |k: int| ShutdownStepView::Terminate(pids[k]),
            ));
        }
        push_shutdown(&mut steps, ShutdownStep::Wait(SHUTDOWN_GRACE_MS));
        let ghost mid = shutdown_view(steps@);
        let mut j: usize = 0;
        while j < children.len()
            invariant
                j <= children.len(),
                pids == children@,
                shutdown_view(steps@) == mid + Seq::new(
                    j as nat,
                    |k: int| ShutdownStepView::Kill(pids[k]),
                ),
            decreases children.len() - j,
        {
            push_shutdown(&mut steps, ShutdownStep::Kill(children[j]));
            j = j + 1;
            assert(shutdown_view(steps@) =~= mid + Seq::new(
                j as nat,
                |k: int| ShutdownStepView::Kill(pids[k]),
            ));
        }
        match &self.data_dir {
            Some(dir) => {
                push_shutdown(&mut steps, ShutdownStep::RemovePidFile(pid_file_path(dir.as_str())));
            },
            None => {},
        }
        assert(shutdown_view(steps@) =~= shutdown_steps(
            opt_vm(old(self).sandbox_vm),
            pids,
            opt_text(old(self).data_dir),
        ));
        steps
    }
}

/// The view of a text that may be absent.
pub open spec fn opt_str(s: Option<&str>) -> Option<Seq<char>> {
    match s {
        Some(s) => Some(s@),
        None => None,
    }
}

/// In a startup the orphans are reaped before anything else, every
/// service is started after its binary was staged, and the file of
/// processes is written after every service was started.
pub proof fn law_startup_order(root: Seq<char>, data_dir: Seq<char>, env: StartupEnvView)
    ensures
        ({
            let steps = startup_steps(root, data_dir, env);
            &&& steps.len() > 0
            &&& steps[0] is Reap
            &&& steps.last() is WritePidFile
            &&& forall|i: int, j: int|
                0 <= i < steps.len() && 0 <= j < steps.len() && #[trigger] steps[i] is Spawn
                    && #[trigger] steps[j] is Stage ==> j < i
            &&& forall|i: int|
                0 <= i < steps.len() && #[trigger] steps[i] is Spawn ==> 0 < i < steps.len() - 1
        }),
{
}

/// The decimal writing of a number is made of digits, is not empty,
/// and writes that number.
pub proof fn lemma_decimal_reads_back(n: nat)
    ensures
        decimal(n).len() > 0,
        all_digits(decimal(n)),
        digits_value(decimal(n)) == n,
    decreases n,
{
    if n < 10 {
        assert(decimal(n) =~= seq![digit(n)]);
        assert(decimal(n).drop_last() =~= Seq::empty());
        assert(digits_value(decimal(n).drop_last()) == 0);
        assert(is_digit(digit(n)) && digit_value(digit(n)) == n);
    } else {
        lemma_decimal_reads_back(n / 10);
        let head = decimal(n / 10);
        let d = digit(n % 10);
        assert(decimal(n) == head.push(d));
        assert(decimal(n).drop_last() =~= head);
        assert(is_digit(d) && digit_value(d) == n % 10);
        assert forall|i: int| 0 <= i < decimal(n).len() implies is_digit(
            #[trigger] decimal(n)[i],
        ) by {
            if i < head.len() {
                assert(decimal(n)[i] == head[i]);
            }
        }
    }
}

/// A text of digits has no white space at either end to lose.
proof fn lemma_trim_digits(s: Seq<char>)
    requires
        s.len() > 0,
        all_digits(s),
    ensures
        trim(s) == s,
{
    assert(is_digit(s[0]));
    assert(is_digit(s.last()));
    assert(trim_start(s) == s);
    assert(trim_end(s) == s);
}

/// A process number in decimal, read as the file of processes is read,
/// is that number.
pub proof fn lemma_pid_reads_back(pid: u32)
    requires
        pid <= 2147483647,
    ensures
        parse_signed(trim(decimal(pid as nat))) == Some(pid as int),
{
    lemma_decimal_reads_back(pid as nat);
    let s = decimal(pid as nat);
    lemma_trim_digits(s);
    assert(is_digit(s[0]));
}

/// Splitting a text that is followed by a text without separator
/// lengthens the last piece.
proof fn lemma_split_run(s: Seq<char>, t: Seq<char>, sep: char)
    requires
        forall|i: int| 0 <= i < t.len() ==> t[i] != sep,
    ensures
        split_on(s + t, sep) == split_on(s, sep).drop_last().push(split_on(s, sep).last() + t),
    decreases t.len(),
{
    lemma_split_nonempty(s, sep);
    let base = split_on(s, sep);
    if t.len() == 0 {
        assert(s + t =~= s);
        assert(base.last() + t =~= base.last());
        assert(base.drop_last().push(base.last()) =~= base);
    } else {
        lemma_split_run(s, t.drop_last(), sep);
        assert((s + t).drop_last() =~= s + t.drop_last());
        assert((s + t).last() == t.last());
        let before = base.drop_last().push(base.last() + t.drop_last());
        assert(before.drop_last() =~= base.drop_last());
        assert((base.last() + t.drop_last()).push(t.last()) =~= base.last() + t);
    }
}

/// The decimal writings of the numbers in `pids`.
pub open spec fn decimals(pids: Seq<u32>) -> Seq<Seq<char>> {
    Seq::new(pids.len(), |i: int| decimal(pids[i] as nat))
}

/// The lines of the file of processes are the numbers in decimal, and
/// an empty piece after the last line feed.
proof fn lemma_pid_lines_split(pids: Seq<u32>)
    ensures
        split_on(pid_lines(pids), '\n') == decimals(pids).push(Seq::empty()),
    decreases pids.len(),
{
    if pids.len() == 0 {
        assert(decimals(pids).push(Seq::empty()) =~= seq![Seq::<char>::empty()]);
    } else {
        let head = pids.drop_last();
        lemma_pid_lines_split(head);
        let text = pid_lines(head);
        let dec = decimal(pids.last() as nat);
        lemma_decimal_reads_back(pids.last() as nat);
        assert forall|i: int| 0 <= i < dec.len() implies dec[i] != '\n' by {
            assert(is_digit(dec[i]));
        }
        lemma_split_run(text, dec, '\n');
        let pieces = split_on(text + dec, '\n');
        assert(decimals(head).push(Seq::empty()).drop_last() =~= decimals(head));
        assert(Seq::<char>::empty() + dec =~= dec);
        assert(pieces =~= decimals(head).push(dec));
        assert(decimals(head).push(dec) =~= decimals(pids));
        reveal_strlit("\n");
        assert("\n"@ =~= seq!['\n']);
        let whole = text + dec + "\n"@;
        assert(whole.drop_last() =~= text + dec);
        assert(whole.last() == '\n');
    }
}

/// The numbers that the decimal writings of `pids` hold are `pids`.
proof fn lemma_numbers_of_decimals(pids: Seq<u32>)
    requires
        forall|i: int| 0 <= i < pids.len() ==> pids[i] <= 2147483647,
    ensures
        numbers(decimals(pids)) == Seq::new(pids.len(), |i: int| pids[i] as int),
    decreases pids.len(),
{
    let want = Seq::new(pids.len(), |i: int| pids[i] as int);
    if pids.len() == 0 {
        assert(want =~= Seq::empty());
    } else {
        let head = pids.drop_last();
        lemma_numbers_of_decimals(head);
        lemma_pid_reads_back(pids.last());
        assert(decimals(pids).drop_last() =~= decimals(head));
        assert(decimals(pids).last() == decimal(pids.last() as nat));
        assert(Seq::new(head.len(), |i: int| head[i] as int).push(pids.last() as int) =~= want);
    }
}

/// The file of processes that is written is read back as the processes
/// that were written, in order, as long as each number fits 31 bits.
pub proof fn law_pid_file_round_trip(children: Seq<u32>, vm_pid: Option<u32>)
    requires
        forall|i: int| 0 <= i < children.len() ==> children[i] <= 2147483647,
        vm_pid is Some ==> vm_pid->0 <= 2147483647,
    ensures
        listed_processes(pid_lines(pids_to_list(children, vm_pid))) == Seq::new(
            pids_to_list(children, vm_pid).len(),
            |i: int| pids_to_list(children, vm_pid)[i] as int,
        ),
{
    let pids = pids_to_list(children, vm_pid);
    lemma_pid_lines_split(pids);
    lemma_numbers_of_decimals(pids);
    let lines = decimals(pids).push(Seq::empty());
    assert(lines.drop_last() =~= decimals(pids));
    assert(trim(Seq::<char>::empty()) =~= Seq::<char>::empty());
    assert(parse_signed(Seq::<char>::empty()) is None);
}

/// Whether `event` reports that a stage succeeded.
pub open spec fn succeeded(event: SandboxEventView) -> bool {
    match event {
        SandboxEventView::Staged(Ok(_)) => true,
        SandboxEventView::WorkspaceMade(Ok(_)) => true,
        SandboxEventView::Started(Ok(_)) => true,
        SandboxEventView::Healthy(Ok(_)) => true,
        _ => false,
    }
}

/// Whether `event` reports the failure `e` of the stage at hand.
pub open spec fn reports_failure(event: SandboxEventView, e: VMErrorView) -> bool {
    match event {
        SandboxEventView::Staged(Err(x)) => x == e,
        SandboxEventView::WorkspaceMade(Err(x)) => e == VMErrorView::Io(x),
        SandboxEventView::Started(Err(x)) => x == e,
        SandboxEventView::Healthy(Err(x)) => x == e,
        _ => false,
    }
}

/// A stage of the bring-up that fails ends the bring-up with its
/// error, passed on as it is, and the supervisor takes no machine.
/// Where a machine was put into the slot it is stopped first; else the
/// bring-up ends at once.
pub proof fn law_sandbox_failure_ends_the_bring_up(
    stage: SandboxStageView,
    children: Seq<u32>,
    data_dir: Option<Seq<char>>,
    vm: Option<PlatformView>,
    event: SandboxEventView,
    e: VMErrorView,
)
    requires
        reports_failure(event, e),
        stage.phase == SandboxPhase::Staging || stage.phase == SandboxPhase::MakingWorkspace
            || stage.phase == SandboxPhase::Starting || stage.phase
            == SandboxPhase::WaitingForHealth,
    ensures
        ({
            let out = sandbox_next(stage, children, data_dir, vm, event);
            let started = stage.phase == SandboxPhase::Starting || stage.phase
                == SandboxPhase::WaitingForHealth;
            &&& out.slot != SlotChange::Adopt
            &&& !(out.request is WritePidFile)
            &&& started && vm is Some ==> out.request == SandboxRequestView::Stop(
                stop_plan(vm->0),
            ) && out.slot == SlotChange::Stop && forall|after: SandboxEventView|
                #![trigger sandbox_next(out.stage, children, data_dir, Some(vm->0.stopped()), after)]
                sandbox_next(
                    out.stage,
                    children,
                    data_dir,
                    Some(vm->0.stopped()),
                    after,
                ).request == SandboxRequestView::Finish(Err(e)) && sandbox_next(
                    out.stage,
                    children,
                    data_dir,
                    Some(vm->0.stopped()),
                    after,
                ).slot == SlotChange::Keep
            &&& !(started && vm is Some) ==> out.request == SandboxRequestView::Finish(Err(e))
                && out.slot == SlotChange::Keep
        }),
{
}

/// A machine becomes the machine of the supervisor only in answer to a
/// health check that succeeded, and only then is the file of processes
/// asked for, with the process of that machine after those of the
/// services. The wait for the health is given the time that a sandbox
/// is allowed, and is asked for only after the machine was started.
pub proof fn law_sandbox_adopts_only_the_healthy(
    stage: SandboxStageView,
    children: Seq<u32>,
    data_dir: Option<Seq<char>>,
    vm: Option<PlatformView>,
    event: SandboxEventView,
)
    ensures
        ({
            let out = sandbox_next(stage, children, data_dir, vm, event);
            &&& out.slot == SlotChange::Adopt ==> stage.phase == SandboxPhase::WaitingForHealth
                && succeeded(event) && event is Healthy && vm is Some
            &&& out.request is WritePidFile ==> out.slot == SlotChange::Adopt && data_dir is Some
                && out.request == SandboxRequestView::WritePidFile(
                PidFileView {
                    path: join_spec(data_dir->0, pid_file_name()),
                    contents: pid_lines(pids_to_list(children, vm->0.process())),
                },
            )
            &&& stage.phase == SandboxPhase::WaitingForHealth && succeeded(event) && event
                is Healthy && vm is Some ==> out.slot == SlotChange::Adopt
            &&& out.request is WaitForHealth ==> out.request == SandboxRequestView::WaitForHealth(
                SANDBOX_HEALTH_TIMEOUT_MS,
            ) && stage.phase == SandboxPhase::Starting && succeeded(event) && event is Started
            &&& out.request is Start ==> out.slot == SlotChange::Fresh && stage.phase
                == SandboxPhase::MakingWorkspace
        }),
{
}

/// Without the image of the machine nothing is asked for: the
/// bring-up is over, and any further event is refused without touching
/// the slot or the supervisor.
pub proof fn law_sandbox_is_optional(
    data_dir: Seq<char>,
    env: StartupEnvView,
    os: HostOs,
    children: Seq<u32>,
    vm: Option<PlatformView>,
    event: SandboxEventView,
)
    ensures
        sandbox_begin(data_dir, env, os, false).phase == SandboxPhase::Finished,
        sandbox_next(
            sandbox_begin(data_dir, env, os, false),
            children,
            Some(data_dir),
            vm,
            event,
        ).slot == SlotChange::Keep,
        sandbox_next(
            sandbox_begin(data_dir, env, os, false),
            children,
            Some(data_dir),
            vm,
            event,
        ).request is Finish,
{
}

} // verus!
