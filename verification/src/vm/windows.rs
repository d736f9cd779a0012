//! The backend of a Windows host: a distribution of the lightweight-VM
//! subsystem that holds the sandbox server. The subsystem forwards the
//! ports of the guest to the host by itself.

use vstd::prelude::*;
use crate::command::{plain_command, CommandSpec, CommandView};
use crate::commands::{ascii_letter, is_ascii_letter};
use crate::parse::{contains_text, find_text, pieces, split, split_on, trim, trimmed};
use crate::path::{join_on, join_on_spec, replaced, same_chars};
use crate::text::{
    chars_of, concat2, concat3, decimal, decimal_string, no_texts, opt_text, push_text, string_of,
    texts,
};
use crate::vm::config::{VMConfig, VMConfigView};
use crate::vm::error::{VMError, VMErrorView};
use crate::vm::health::HealthProbe;
use crate::vm::linux::opt_config;
use crate::vm::{
    already_running, sandbox_url_for, sandbox_url_text, HostFacts, HostFactsView, HostOs,
    StopPlan, VirtualMachine, VmReply, VmReplyView, VmRequest, VmRequestView,
    DEFAULT_SANDBOX_PORT,
};

verus! {

/// The name of the distribution that holds the sandbox.
pub const DISTRO_NAME: &'static str = "orcabot-sandbox";

/// The name of the distribution that holds the sandbox.
pub open spec fn distro_name() -> Seq<char> {
    "orcabot-sandbox"@
}

/// How far a start has come.
#[derive(Clone, Copy, PartialEq, Eq, Debug)]
pub enum WslPhase {
    /// No start is in progress.
    Idle,
    /// The directory of the distribution is being created.
    MakingDir,
    /// The distribution is being imported.
    Importing,
    /// The sandbox server is being started.
    Sandbox,
}

/// The virtual machine of a Windows host.
pub struct WslVM {
    /// The process of the sandbox server.
    pub process: Option<u32>,
    /// The configuration with which the machine was started.
    pub config: Option<VMConfig>,
    pub running: bool,
    pub sandbox_url: String,
    pub phase: WslPhase,
    /// The configuration of the start in progress.
    pub pending: Option<VMConfig>,
    /// The directory of the distribution of the start in progress.
    pub install_dir: String,
}

/// A `WslVM` as a plain value.
pub struct WslView {
    pub process: Option<u32>,
    pub config: Option<VMConfigView>,
    pub running: bool,
    pub sandbox_url: Seq<char>,
    pub phase: WslPhase,
    pub pending: Option<VMConfigView>,
    pub install_dir: Seq<char>,
}

impl View for WslVM {
    type V = WslView;

    open spec fn view(&self) -> WslView {
        WslView {
            process: self.process,
            config: opt_config(self.config),
            running: self.running,
            sandbox_url: self.sandbox_url@,
            phase: self.phase,
            pending: opt_config(self.pending),
            install_dir: self.install_dir@,
        }
    }
}

/// Whether line `i` of `text` names the distribution, white space
/// around the name not counting.
pub open spec fn names_distro(text: Seq<char>, i: int) -> bool {
    0 <= i < split_on(text, '\n').len() && trim(split_on(text, '\n')[i]) == distro_name()
}

/// Whether the distribution is among those listed in `list`, one to a
/// line.
pub open spec fn distro_listed(list: Option<Seq<char>>) -> bool {
    list is Some && exists|i: int| names_distro(list->0, i)
}

/// A list with a line that names the distribution lists it.
proof fn lemma_listed(text: Seq<char>, i: int)
    requires
        names_distro(text, i),
    ensures
        distro_listed(Some(text)),
{
    let list = Some(text);
    assert(names_distro(list->0, i));
}

/// The text `s` with every `\` replaced by `/`.
pub open spec fn slashed(s: Seq<char>) -> Seq<char> {
    replaced(s, '\\', '/')
}

/// The letter `c` of the ASCII alphabet in lower case.
pub open spec fn lower(c: char) -> char {
    if 'A' <= c && c <= 'Z' {
        ((c as u8) + 32) as char
    } else {
        c
    }
}

/// The prefix that marks a path as verbatim.
pub open spec fn verbatim_prefix() -> Seq<char> {
    seq!['\\', '\\', '?', '\\']
}

/// The path `p` without the prefix that marks it as verbatim.
pub open spec fn without_verbatim(p: Seq<char>) -> Seq<char> {
    if verbatim_prefix().is_prefix_of(p) {
        p.skip(4)
    } else {
        p
    }
}

/// The path of the guest under which the path `p` of the host is
/// seen: a drive `X:` becomes `/mnt/x`, and `\` becomes `/`.
pub open spec fn wsl_path(p: Seq<char>) -> Seq<char> {
    let s = without_verbatim(p);
    if s.len() >= 2 && is_ascii_letter(s[0]) && s[1] == ':' {
        "/mnt/"@ + seq![lower(s[0])] + slashed(s.skip(2))
    } else {
        slashed(s)
    }
}

/// The path of the guest holds no `\`.
pub proof fn law_guest_path_has_no_backslash(p: Seq<char>)
    ensures
        forall|i: int| 0 <= i < wsl_path(p).len() ==> wsl_path(p)[i] != '\\',
{
    let s = without_verbatim(p);
    reveal_strlit("/mnt/");
    if s.len() >= 2 && is_ascii_letter(s[0]) && s[1] == ':' {
        let head = "/mnt/"@ + seq![lower(s[0])];
        assert forall|i: int| 0 <= i < wsl_path(p).len() implies wsl_path(p)[i] != '\\' by {
            if i < 5 {
                assert(wsl_path(p)[i] == "/mnt/"@[i]);
            } else if i == 5 {
                assert(wsl_path(p)[i] == lower(s[0]));
            } else {
                assert(wsl_path(p)[i] == slashed(s.skip(2))[i - 6]);
            }
        }
    }
}

/// The words `words` with one space between neighbours.
pub open spec fn spaced(words: Seq<Seq<char>>) -> Seq<char>
    decreases words.len(),
{
    if words.len() == 0 {
        Seq::empty()
    } else if words.len() == 1 {
        words[0]
    } else {
        spaced(words.drop_last()) + " "@ + words.last()
    }
}

/// The assignments `name=value` of the variables in `env`, in order.
pub open spec fn assignments(env: Seq<(Seq<char>, Seq<char>)>) -> Seq<Seq<char>> {
    Seq::new(env.len(), |i: int| env[i].0 + "="@ + env[i].1)
}

/// The variables that the sandbox server is started with: its port,
/// the workspace as the guest sees it, and those of the configuration.
pub open spec fn sandbox_assignments(config: VMConfigView) -> Seq<Seq<char>> {
    seq![
        "PORT="@ + decimal(config.sandbox_port as nat),
        "WORKSPACE_BASE="@ + wsl_path(config.workspace_path),
    ] + assignments(config.env)
}

/// The command that starts the sandbox server in the distribution.
pub open spec fn sandbox_command(config: VMConfigView) -> CommandView {
    plain_command(
        "wsl"@,
        seq![
            "-d"@,
            distro_name(),
            "--"@,
            "sh"@,
            "-c"@,
            "export "@ + spaced(sandbox_assignments(config)) + " && /usr/local/bin/orcabot-server"@,
        ],
    )
}

/// The command that imports the archive `tarball` as the distribution,
/// into `install_dir`, for version 2 of the subsystem.
pub open spec fn import_command(tarball: Seq<char>, install_dir: Seq<char>) -> CommandView {
    plain_command(
        "wsl"@,
        seq!["--import"@, distro_name(), install_dir, tarball, "--version"@, "2"@],
    )
}

/// The command that ends the distribution.
pub open spec fn terminate_command() -> CommandView {
    plain_command("wsl"@, seq!["--terminate"@, distro_name()])
}

/// The command that lists the process `pid`, if it is alive.
pub open spec fn tasklist_command(pid: u32) -> CommandView {
    plain_command("tasklist"@, seq!["/FI"@, "PID eq "@ + decimal(pid as nat)])
}

/// Where the distribution is installed, below the directory for the
/// data of local applications.
pub open spec fn install_dir_spec(local_app_data: Seq<char>) -> Seq<char> {
    join_on_spec(local_app_data, "OrcabotDesktop/wsl"@, HostOs::Windows)
}

impl WslView {
    /// The sandbox server is started.
    pub open spec fn sandbox(self) -> (WslView, VmRequestView) {
        (
            WslView { phase: WslPhase::Sandbox, ..self },
            VmRequestView::Spawn(sandbox_command(self.pending->0)),
        )
    }

    /// The start fails with `error`.
    pub open spec fn failed(self, error: VMErrorView) -> (WslView, VmRequestView) {
        (
            WslView { phase: WslPhase::Idle, pending: None, ..self },
            VmRequestView::Finish(Err(error)),
        )
    }

    /// How a start begins. It is refused while the machine runs and
    /// where the subsystem is not usable. A distribution that is not
    /// installed yet is imported first, which needs the image and the
    /// directory for the data of local applications.
    pub open spec fn start(self, config: VMConfigView, host: HostFactsView) -> (
        WslView,
        VmRequestView,
    ) {
        if self.running {
            (self, already_running())
        } else if !host.wsl_available {
            (
                self,
                VmRequestView::Finish(
                    Err(
                        VMErrorView::UnsupportedPlatform(
                            "WSL2 is not available. Please install WSL2 first: https://aka.ms/wsl2"@,
                        ),
                    ),
                ),
            )
        } else if distro_listed(host.distro_list) {
            (WslView { pending: Some(config), ..self }).sandbox()
        } else if !host.image_exists {
            (self, VmRequestView::Finish(Err(VMErrorView::ImageNotFound(config.image_path))))
        } else if host.local_app_data is None {
            (
                self,
                VmRequestView::Finish(
                    Err(VMErrorView::StartFailed("Could not determine LOCALAPPDATA path"@)),
                ),
            )
        } else {
            (
                WslView {
                    pending: Some(config),
                    install_dir: install_dir_spec(host.local_app_data->0),
                    phase: WslPhase::MakingDir,
                    ..self
                },
                VmRequestView::CreateDir(install_dir_spec(host.local_app_data->0)),
            )
        }
    }

    /// How a start goes on.
    pub open spec fn resume(self, reply: VmReplyView) -> (WslView, VmRequestView) {
        match self.phase {
            WslPhase::Idle => (
                self,
                VmRequestView::Finish(Err(VMErrorView::StartFailed("No start is in progress"@))),
            ),
            WslPhase::MakingDir => match reply {
                VmReplyView::CreateFailed(e) => self.failed(VMErrorView::Io(e)),
                _ => (
                    WslView { phase: WslPhase::Importing, ..self },
                    VmRequestView::Run(import_command(self.pending->0.image_path, self.install_dir)),
                ),
            },
            WslPhase::Importing => match reply {
                VmReplyView::Ran { success, stderr } => if success {
                    self.sandbox()
                } else {
                    self.failed(VMErrorView::StartFailed("WSL import failed: "@ + stderr))
                },
                VmReplyView::Failed(e) => self.failed(
                    VMErrorView::StartFailed("Failed to run wsl --import: "@ + e),
                ),
                _ => self.failed(VMErrorView::StartFailed("WSL import failed: unexpected reply"@)),
            },
            WslPhase::Sandbox => match reply {
                VmReplyView::Spawned(pid) => (
                    WslView {
                        phase: WslPhase::Idle,
                        process: Some(pid),
                        config: self.pending,
                        pending: None,
                        running: true,
                        sandbox_url: sandbox_url_text(self.pending->0.sandbox_port),
                        ..self
                    },
                    VmRequestView::Finish(Ok(())),
                ),
                VmReplyView::Failed(e) => self.failed(
                    VMErrorView::StartFailed("Failed to start sandbox in WSL: "@ + e),
                ),
                _ => self.failed(
                    VMErrorView::StartFailed("Failed to start sandbox in WSL: unexpected reply"@),
                ),
            },
        }
    }

    /// The machine after it was stopped.
    pub open spec fn stopped(self) -> WslView {
        WslView { process: None, running: false, phase: WslPhase::Idle, pending: None, ..self }
    }

    /// The processes to kill when the machine is stopped.
    pub open spec fn to_kill(self) -> Seq<u32> {
        match self.process {
            Some(pid) => seq![pid],
            None => Seq::empty(),
        }
    }

    /// A machine that runs has a process, and a start in progress has
    /// a configuration.
    pub open spec fn wf(self) -> bool {
        &&& self.running ==> self.process is Some
        &&& self.phase != WslPhase::Idle ==> self.pending is Some && !self.running
    }
}

/// Replaces every `\` of `s` by `/`.
fn slash(s: &Vec<char>, from: usize) -> (out: Vec<char>)
    requires
        from <= s.len(),
    ensures
        out@ == slashed(s@.skip(from as int)),
{
    let mut out: Vec<char> = Vec::new();
    let mut i: usize = from;
    let ghost rest = s@.skip(from as int);
    while i < s.len()
        invariant
            from <= i <= s.len(),
            rest == s@.skip(from as int),
            out@ == slashed(rest).take(i - from),
        decreases s.len() - i,
    {
        let c = s[i];
        if c == '\\' {
            out.push('/');
        } else {
            out.push(c);
        }
        proof {
            assert(rest[i - from] == c);
            assert(slashed(rest).take(i - from + 1) =~= slashed(rest).take(i - from).push(
                slashed(rest)[i - from],
            ));
        }
        i = i + 1;
    }
    assert(slashed(rest).take(rest.len() as int) =~= slashed(rest));
    out
}

/// Joins `words` with one space between neighbours.
fn space_out(words: &Vec<String>) -> (out: String)
    ensures
        out@ == spaced(texts(words@)),
{
    let mut out = String::new();
    let mut k: usize = 0;
    let ghost all = texts(words@);
    assert(all.take(0) =~= Seq::empty());
    while k < words.len()
        invariant
            k <= words.len(),
            all == texts(words@),
            out@ == spaced(all.take(k as int)),
        decreases words.len() - k,
    {
        proof {
            assert(all.take(k + 1).drop_last() =~= all.take(k as int));
            assert(all.take(k + 1).last() == words@[k as int]@);
        }
        if k > 0 {
            out.append(" ");
        }
        out.append(words[k].as_str());
        proof {
            if k == 0 {
                assert(all.take(1)[0] == words@[0]@);
                assert(out@ =~= words@[0]@);
            }
        }
        k = k + 1;
    }
    assert(all.take(words.len() as int) =~= all);
    out
}

impl WslVM {
    /// A machine that was never started.
    pub fn new() -> (out: Self)
        ensures
            out@.wf(),
            out@ == out@.stopped(),
            !out.running,
            out.process is None,
            out.config is None,
            out.phase == WslPhase::Idle,
            out.sandbox_url@ == "http://127.0.0.1:8080"@,
    {
        WslVM {
            process: None,
            config: None,
            running: false,
            sandbox_url: "http://127.0.0.1:8080".to_owned(),
            phase: WslPhase::Idle,
            pending: None,
            install_dir: String::new(),
        }
    }

    /// The command that asks the subsystem for its status; the
    /// subsystem is usable where the command succeeds.
    pub fn is_wsl_available() -> (out: CommandSpec)
        ensures
            out@ == plain_command("wsl"@, seq!["--status"@]),
    {
        let mut args = no_texts();
        push_text(&mut args, "--status");
        assert(texts(args@) =~= seq!["--status"@]);
        CommandSpec::new("wsl", args)
    }

    /// The command that lists the distributions, one to a line.
    pub fn list_distros() -> (out: CommandSpec)
        ensures
            out@ == plain_command("wsl"@, seq!["--list"@, "--quiet"@]),
    {
        let mut args = no_texts();
        push_text(&mut args, "--list");
        push_text(&mut args, "--quiet");
        assert(texts(args@) =~= seq!["--list"@, "--quiet"@]);
        CommandSpec::new("wsl", args)
    }

    /// Whether the distribution is installed, given the list of the
    /// distributions where it could be had.
    pub fn is_distro_installed(list: &Option<String>) -> (out: bool)
        ensures
            out == distro_listed(opt_text(*list)),
    {
        match list {
            None => false,
            Some(text) => {
                let chars = chars_of(text.as_str());
                let lines = split(&chars, '\n');
                let name = chars_of(DISTRO_NAME);
                let ghost all = split_on(text@, '\n');
                let mut i: usize = 0;
                while i < lines.len()
                    invariant
                        i <= lines.len(),
                        pieces(lines@) == all,
                        all == split_on(text@, '\n'),
                        opt_text(*list) == Some(text@),
                        name@ == distro_name(),
                        forall|j: int| 0 <= j < i ==> !names_distro(text@, j),
                    decreases lines.len() - i,
                {
                    let line = trimmed(&lines[i]);
                    assert(pieces(lines@)[i as int] == lines@[i as int]@);
                    if same_chars(&line, &name) {
                        assert(names_distro(text@, i as int));
                        proof {
                            lemma_listed(text@, i as int);
                        }
                        return true;
                    }
                    assert(!names_distro(text@, i as int));
                    i = i + 1;
                }
                assert(forall|j: int| !names_distro(text@, j));
                false
            },
        }
    }

    /// The command that imports the archive `tarball_path` as the
    /// distribution into `install_dir`.
    pub fn import_distro(tarball_path: &str, install_dir: &str) -> (out: CommandSpec)
        ensures
            out@ == import_command(tarball_path@, install_dir@),
    {
        let mut args = no_texts();
        push_text(&mut args, "--import");
        push_text(&mut args, DISTRO_NAME);
        push_text(&mut args, install_dir);
        push_text(&mut args, tarball_path);
        push_text(&mut args, "--version");
        push_text(&mut args, "2");
        assert(texts(args@) =~= import_command(tarball_path@, install_dir@).args);
        CommandSpec::new("wsl", args)
    }

    /// The path of the guest under which the path `windows_path` of the
    /// host is seen.
    pub fn windows_to_wsl_path(windows_path: &str) -> (out: String)
        ensures
            out@ == wsl_path(windows_path@),
    {
        let p = chars_of(windows_path);
        let verbatim = p.len() >= 4 && p[0] == '\\' && p[1] == '\\' && p[2] == '?' && p[3]
            == '\\';
        proof {
            let pre = verbatim_prefix();
            if verbatim {
                assert(p@.subrange(0, 4) =~= pre);
            } else if p.len() >= 4 {
                assert(p@.subrange(0, 4) != pre) by {
                    if p@.subrange(0, 4) == pre {
                        assert(p@.subrange(0, 4)[0] == pre[0]);
                        assert(p@.subrange(0, 4)[1] == pre[1]);
                        assert(p@.subrange(0, 4)[2] == pre[2]);
                        assert(p@.subrange(0, 4)[3] == pre[3]);
                    }
                }
            }
        }
        let start: usize = if verbatim {
            4
        } else {
            0
        };
        let ghost s = without_verbatim(p@);
        proof {
            assert(p@.skip(0) =~= p@);
            assert(s == p@.skip(start as int));
        }
        if p.len() - start >= 2 && ascii_letter(p[start]) && p[start + 1] == ':' {
            let c = p[start];
            let drive = if 'A' <= c && c <= 'Z' {
                ((c as u8) + 32) as char
            } else {
                c
            };
            let mut out = "/mnt/".to_owned();
            out.push(drive);
            let rest = slash(&p, start + 2);
            let tail = string_of(&rest);
            out.append(tail.as_str());
            proof {
                assert(s[0] == c && s[1] == ':');
                assert(s.skip(2) =~= p@.skip(start + 2));
                assert(out@ =~= "/mnt/"@ + seq![lower(c)] + slashed(s.skip(2)));
            }
            out
        } else {
            let rest = slash(&p, start);
            proof {
                if p.len() - start >= 2 {
                    assert(s[0] == p@[start as int] && s[1] == p@[start + 1]);
                }
            }
            string_of(&rest)
        }
    }

    /// The command that starts the sandbox server in the distribution
    /// for `config`.
    pub fn start_sandbox(config: &VMConfig) -> (out: CommandSpec)
        ensures
            out@ == sandbox_command(config@),
    {
        let mut words = no_texts();
        let port = decimal_string(config.sandbox_port as u64);
        let a = concat2("PORT=", port.as_str());
        push_text(&mut words, a.as_str());
        let ws = WslVM::windows_to_wsl_path(config.workspace_path.as_str());
        let b = concat2("WORKSPACE_BASE=", ws.as_str());
        push_text(&mut words, b.as_str());
        let ghost head = texts(words@);
        assert(head =~= seq![
            "PORT="@ + decimal(config.sandbox_port as nat),
            "WORKSPACE_BASE="@ + wsl_path(config@.workspace_path),
        ]);
        let mut i: usize = 0;
        let ghost env = config@.env;
        assert(assignments(env).take(0) =~= Seq::empty());
        assert(head + Seq::<Seq<char>>::empty() =~= head);
        while i < config.env.len()
            invariant
                i <= config.env.len(),
                env == config@.env,
                texts(words@) == head + assignments(env).take(i as int),
            decreases config.env.len() - i,
        {
            let w = concat3(config.env[i].0.as_str(), "=", config.env[i].1.as_str());
            push_text(&mut words, w.as_str());
            proof {
                assert(assignments(env)[i as int] == w@);
                assert(assignments(env).take(i + 1) =~= assignments(env).take(i as int).push(w@));
                assert(head + assignments(env).take(i + 1) =~= (head + assignments(env).take(
                    i as int,
                )).push(w@));
            }
            i = i + 1;
        }
        assert(assignments(env).take(config.env.len() as int) =~= assignments(env));
        let line = space_out(&words);
        let script = concat3("export ", line.as_str(), " && /usr/local/bin/orcabot-server");
        let mut args = no_texts();
        push_text(&mut args, "-d");
        push_text(&mut args, DISTRO_NAME);
        push_text(&mut args, "--");
        push_text(&mut args, "sh");
        push_text(&mut args, "-c");
        push_text(&mut args, script.as_str());
        assert(texts(args@) =~= sandbox_command(config@).args);
        CommandSpec::new("wsl", args)
    }

    /// The command that ends the distribution, to free its memory.
    pub fn terminate_distro() -> (out: CommandSpec)
        ensures
            out@ == terminate_command(),
    {
        let mut args = no_texts();
        push_text(&mut args, "--terminate");
        push_text(&mut args, DISTRO_NAME);
        assert(texts(args@) =~= terminate_command().args);
        CommandSpec::new("wsl", args)
    }

    /// The command that lists the process `pid`, if it is alive.
    pub fn liveness_command(pid: u32) -> (out: CommandSpec)
        ensures
            out@ == tasklist_command(pid),
    {
        let mut args = no_texts();
        push_text(&mut args, "/FI");
        let p = decimal_string(pid as u64);
        let filter = concat2("PID eq ", p.as_str());
        push_text(&mut args, filter.as_str());
        assert(texts(args@) =~= tasklist_command(pid).args);
        CommandSpec::new("tasklist", args)
    }

    /// Whether `listing`, the answer to the command that lists the
    /// process `pid`, shows that it is alive: it holds its number.
    pub fn process_listed(listing: &str, pid: u32) -> (out: bool)
        ensures
            out == contains_text(listing@, decimal(pid as nat)),
    {
        let hay = chars_of(listing);
        let p = decimal_string(pid as u64);
        let needle = chars_of(p.as_str());
        find_text(&hay, &needle)
    }

    /// Turns to the sandbox server.
    fn sandbox(&mut self) -> (request: VmRequest)
        requires
            old(self).pending is Some,
        ensures
            final(self)@ == old(self)@.sandbox().0,
            request@ == old(self)@.sandbox().1,
    {
        self.phase = WslPhase::Sandbox;
        let command = match &self.pending {
            Some(config) => WslVM::start_sandbox(config),
            None => CommandSpec::new("", no_texts()),
        };
        VmRequest::Spawn(command)
    }

    /// Ends the start with `error`.
    fn failed(&mut self, error: VMError) -> (request: VmRequest)
        ensures
            final(self)@ == old(self)@.failed(error@).0,
            request@ == old(self)@.failed(error@).1,
    {
        self.phase = WslPhase::Idle;
        self.pending = None;
        VmRequest::Finish(Err(error))
    }
}

impl VirtualMachine for WslVM {
    open spec fn wf(&self) -> bool {
        self@.wf()
    }

    open spec fn running(&self) -> bool {
        self.running
    }

    open spec fn process(&self) -> Option<u32> {
        self.process
    }

    open spec fn port(&self) -> u16 {
        match self.config {
            Some(c) => c.sandbox_port,
            None => DEFAULT_SANDBOX_PORT,
        }
    }

    open spec fn idle(&self) -> bool {
        self@ == self@.stopped()
    }

    fn start(&mut self, config: &VMConfig, host: &HostFacts) -> (request: VmRequest)
        ensures
            final(self)@ == old(self)@.start(config@, host@).0,
            request@ == old(self)@.start(config@, host@).1,
    {
        if self.running {
            return VmRequest::Finish(Err(VMError::StartFailed("VM is already running".to_owned())));
        }
        if !host.wsl_available {
            return VmRequest::Finish(
                Err(
                    VMError::UnsupportedPlatform(
                        "WSL2 is not available. Please install WSL2 first: https://aka.ms/wsl2".to_owned(),
                    ),
                ),
            );
        }
        if WslVM::is_distro_installed(&host.distro_list) {
            self.pending = Some(config.duplicate());
            return self.sandbox();
        }
        if !host.image_exists {
            return VmRequest::Finish(Err(VMError::ImageNotFound(config.image_path.clone())));
        }
        match &host.local_app_data {
            None => VmRequest::Finish(
                Err(VMError::StartFailed("Could not determine LOCALAPPDATA path".to_owned())),
            ),
            Some(base) => {
                let dir = join_on(base.as_str(), "OrcabotDesktop/wsl", HostOs::Windows);
                self.pending = Some(config.duplicate());
                self.install_dir = dir.clone();
                self.phase = WslPhase::MakingDir;
                VmRequest::CreateDir(dir)
            },
        }
    }

    fn resume(&mut self, reply: VmReply) -> (request: VmRequest)
        ensures
            final(self)@ == old(self)@.resume(reply@).0,
            request@ == old(self)@.resume(reply@).1,
    {
        match self.phase {
            WslPhase::Idle => VmRequest::Finish(
                Err(VMError::StartFailed("No start is in progress".to_owned())),
            ),
            WslPhase::MakingDir => match reply {
                VmReply::CreateFailed(e) => self.failed(VMError::Io(e)),
                _ => {
                    self.phase = WslPhase::Importing;
                    let command = match &self.pending {
                        Some(config) => WslVM::import_distro(
                            config.image_path.as_str(),
                            self.install_dir.as_str(),
                        ),
                        None => CommandSpec::new("", no_texts()),
                    };
                    VmRequest::Run(command)
                },
            },
            WslPhase::Importing => match reply {
                VmReply::Ran { success, stderr } => {
                    if success {
                        self.sandbox()
                    } else {
                        self.failed(
                            VMError::StartFailed(concat2("WSL import failed: ", stderr.as_str())),
                        )
                    }
                },
                VmReply::Failed(e) => self.failed(
                    VMError::StartFailed(concat2("Failed to run wsl --import: ", e.as_str())),
                ),
                _ => self.failed(
                    VMError::StartFailed("WSL import failed: unexpected reply".to_owned()),
                ),
            },
            WslPhase::Sandbox => match reply {
                VmReply::Spawned(pid) => {
                    let mut config: Option<VMConfig> = None;
                    std::mem::swap(&mut config, &mut self.pending);
                    let port = match &config {
                        Some(c) => c.sandbox_port,
                        None => DEFAULT_SANDBOX_PORT,
                    };
                    self.phase = WslPhase::Idle;
                    self.process = Some(pid);
                    self.config = config;
                    self.running = true;
                    self.sandbox_url = sandbox_url_for(port);
                    VmRequest::Finish(Ok(()))
                },
                VmReply::Failed(e) => self.failed(
                    VMError::StartFailed(concat2("Failed to start sandbox in WSL: ", e.as_str())),
                ),
                _ => self.failed(
                    VMError::StartFailed(
                        "Failed to start sandbox in WSL: unexpected reply".to_owned(),
                    ),
                ),
            },
        }
    }

    fn stop(&mut self) -> (plan: StopPlan)
        ensures
            final(self)@ == old(self)@.stopped(),
            plan.kill@ == old(self)@.to_kill(),
            plan.remove@.len() == 0,
            crate::command::commands_view(plan.run@) == seq![terminate_command()],
    {
        let mut kill: Vec<u32> = Vec::new();
        match self.process {
            Some(pid) => {
                kill.push(pid);
                assert(kill@[0] == pid);
            },
            None => {},
        }
        assert(kill@ =~= self@.to_kill());
        self.process = None;
        self.running = false;
        self.phase = WslPhase::Idle;
        self.pending = None;
        let mut run: Vec<CommandSpec> = Vec::new();
        run.push(WslVM::terminate_distro());
        assert(crate::command::commands_view(run@) =~= seq![terminate_command()]);
        StopPlan { kill, remove: Vec::new(), run }
    }

    fn is_running(&self, alive: bool) -> (out: bool) {
        self.process.is_some() && alive
    }

    fn pid(&self) -> (out: Option<u32>) {
        self.process
    }

    fn sandbox_url(&self) -> (out: Option<String>)
        ensures
            out is Some ==> out->0@ == self.sandbox_url@,
    {
        if self.running {
            Some(self.sandbox_url.clone())
        } else {
            None
        }
    }

    fn wait_for_health(&self, timeout_ms: u64) -> (out: HealthProbe)
        ensures
            !out.backoff,
    {
        let port = match &self.config {
            Some(c) => c.sandbox_port,
            None => DEFAULT_SANDBOX_PORT,
        };
        HealthProbe::new(port, timeout_ms, false)
    }
}

/// Stopping a machine that is stopped changes nothing and kills nothing.
pub proof fn law_stop_twice(v: WslView)
    ensures
        v.stopped().stopped() == v.stopped(),
        v.stopped().to_kill().len() == 0,
        v.wf() ==> v.stopped().wf(),
{
}

impl Default for WslVM {
    fn default() -> (out: Self)
        ensures
            out@.wf(),
            out@ == out@.stopped(),
            !out.running,
    {
        WslVM::new()
    }
}

} // verus!
