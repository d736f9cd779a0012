//! The backend of a Linux host: an emulator with hardware
//! acceleration where the kernel offers it, user-mode networking, and
//! the workspace shared over virtio-fs where its daemon is installed,
//! else over 9p.

use vstd::prelude::*;
use crate::command::{plain_command, CommandSpec, CommandView};
use crate::path::{join_paths, join_spec};
use crate::text::{
    append_texts, concat2, concat3, decimal, decimal_string, no_texts, opt_text, push_text, texts,
};
use crate::vm::config::{VMConfig, VMConfigView};
use crate::vm::error::{VMError, VMErrorView};
use crate::vm::health::HealthProbe;
use crate::vm::qemu::{
    boot_args, build_boot_args, build_console_args, build_drive_args, build_net_args,
    build_ninep_args, build_size_args, build_virtiofs_args, console_args, drive_args,
    machine_name, machine_of, net_args, ninep_args, size_args, virtiofs_args,
};
use crate::vm::{
    already_running, sandbox_url_for, sandbox_url_text, HostFacts, HostFactsView, StopPlan,
    VirtualMachine, VmReply, VmReplyView, VmRequest, VmRequestView, DEFAULT_SANDBOX_PORT,
};

verus! {

/// How far a start has come.
#[derive(Clone, Copy, PartialEq, Eq, Debug)]
pub enum QemuPhase {
    /// No start is in progress.
    Idle,
    /// A stale socket of the daemon is being removed.
    Clearing,
    /// The daemon is being started.
    Daemon,
    /// The daemon is given time to create its socket.
    Settling,
    /// The emulator is being started.
    Machine,
}

/// The virtual machine of a Linux host.
pub struct QemuVM {
    /// The process of the emulator.
    pub qemu_process: Option<u32>,
    /// The process of the virtio-fs daemon.
    pub virtiofsd_process: Option<u32>,
    /// The configuration with which the machine was started.
    pub config: Option<VMConfig>,
    pub running: bool,
    pub sandbox_url: String,
    /// The socket on which the daemon listens.
    pub virtiofs_socket: Option<String>,
    pub phase: QemuPhase,
    /// The configuration of the start in progress.
    pub pending: Option<VMConfig>,
    /// The socket that the daemon of the start in progress is to use.
    pub socket_candidate: String,
    /// Whether the start in progress uses hardware acceleration.
    pub use_kvm: bool,
    /// The emulator of the start in progress.
    pub binary: String,
}

/// The view of a configuration that may be absent.
pub open spec fn opt_config(c: Option<VMConfig>) -> Option<VMConfigView> {
    match c {
        Some(c) => Some(c@),
        None => None,
    }
}

/// A `QemuVM` as a plain value.
pub struct QemuView {
    pub qemu_process: Option<u32>,
    pub virtiofsd_process: Option<u32>,
    pub config: Option<VMConfigView>,
    pub running: bool,
    pub sandbox_url: Seq<char>,
    pub virtiofs_socket: Option<Seq<char>>,
    pub phase: QemuPhase,
    pub pending: Option<VMConfigView>,
    pub socket_candidate: Seq<char>,
    pub use_kvm: bool,
    pub binary: Seq<char>,
}

impl View for QemuVM {
    type V = QemuView;

    open spec fn view(&self) -> QemuView {
        QemuView {
            qemu_process: self.qemu_process,
            virtiofsd_process: self.virtiofsd_process,
            config: opt_config(self.config),
            running: self.running,
            sandbox_url: self.sandbox_url@,
            virtiofs_socket: opt_text(self.virtiofs_socket),
            phase: self.phase,
            pending: opt_config(self.pending),
            socket_candidate: self.socket_candidate@,
            use_kvm: self.use_kvm,
            binary: self.binary@,
        }
    }
}

/// The emulator that is installed: the one for x86-64 before the one
/// for aarch64.
pub open spec fn installed_qemu(x86_64: bool, aarch64: bool) -> Option<Seq<char>> {
    if x86_64 {
        Some("qemu-system-x86_64"@)
    } else if aarch64 {
        Some("qemu-system-aarch64"@)
    } else {
        None
    }
}

/// The arguments that share the workspace: through the daemon on
/// `socket` where there is one, else over 9p.
pub open spec fn share_args(config: VMConfigView, socket: Option<Seq<char>>) -> Seq<Seq<char>> {
    match socket {
        Some(s) => virtiofs_args(s),
        None => ninep_args(config.workspace_path),
    }
}

/// The arguments that choose machine and processor: the machine of
/// the emulator, with hardware acceleration and the processor of the
/// host, or with a generic processor.
pub open spec fn machine_args(binary: Seq<char>, use_kvm: bool) -> Seq<Seq<char>> {
    if use_kvm {
        seq!["-enable-kvm"@, "-machine"@, machine_of(binary), "-cpu"@, "host"@]
    } else {
        seq!["-machine"@, machine_of(binary), "-cpu"@, "qemu64"@]
    }
}

/// The arguments of the emulator `binary` for `config`.
pub open spec fn qemu_args(
    binary: Seq<char>,
    config: VMConfigView,
    use_kvm: bool,
    socket: Option<Seq<char>>,
) -> Seq<Seq<char>> {
    machine_args(binary, use_kvm) + size_args(config) + boot_args(config) + drive_args(
        config.image_path,
    ) + net_args(config.sandbox_port) + share_args(config, socket) + console_args()
}

/// The socket of the daemon of the process `process`, in the
/// directory `temp_dir`.
pub open spec fn socket_path(temp_dir: Seq<char>, process: u32) -> Seq<char> {
    join_spec(temp_dir, "orcabot-virtiofs-"@ + decimal(process as nat) + ".sock"@)
}

/// The command that starts the daemon on `socket` for `workspace`.
pub open spec fn virtiofsd_command(socket: Seq<char>, workspace: Seq<char>) -> CommandView {
    CommandView {
        program: "virtiofsd"@,
        args: seq![
            "--socket-path="@ + socket,
            "--shared-dir="@ + workspace,
            "--cache=auto"@,
            "--sandbox=chroot"@,
        ],
        env: Seq::empty(),
        quiet: true,
    }
}

/// The command that asks whether the process `pid` is alive.
pub open spec fn liveness_command(pid: u32) -> CommandView {
    plain_command("kill"@, seq!["-0"@, decimal(pid as nat)])
}

/// Builds the command that asks whether the process `pid` is alive.
pub fn build_liveness_command(pid: u32) -> (out: CommandSpec)
    ensures
        out@ == liveness_command(pid),
{
    let mut args = no_texts();
    push_text(&mut args, "-0");
    let p = decimal_string(pid as u64);
    push_text(&mut args, p.as_str());
    assert(texts(args@) =~= seq!["-0"@, decimal(pid as nat)]);
    CommandSpec::new("kill", args)
}

impl QemuView {
    /// The emulator is started.
    pub open spec fn machine(self) -> (QemuView, VmRequestView) {
        (
            QemuView { phase: QemuPhase::Machine, ..self },
            VmRequestView::Spawn(
                plain_command(
                    self.binary,
                    qemu_args(self.binary, self.pending->0, self.use_kvm, self.virtiofs_socket),
                ),
            ),
        )
    }

    /// How a start begins. It is refused while the machine runs, where
    /// no emulator is installed, and where the image is missing. The
    /// daemon comes first where it is installed, else the emulator.
    pub open spec fn start(self, config: VMConfigView, host: HostFactsView) -> (
        QemuView,
        VmRequestView,
    ) {
        if self.running {
            (self, already_running())
        } else if installed_qemu(host.qemu_x86_64, host.qemu_aarch64) is None {
            (
                self,
                VmRequestView::Finish(
                    Err(
                        VMErrorView::UnsupportedPlatform(
                            "QEMU is not installed. Please install qemu-system-x86_64."@,
                        ),
                    ),
                ),
            )
        } else if !host.image_exists {
            (self, VmRequestView::Finish(Err(VMErrorView::ImageNotFound(config.image_path))))
        } else {
            let ready = QemuView {
                pending: Some(config),
                use_kvm: host.kvm_available,
                binary: installed_qemu(host.qemu_x86_64, host.qemu_aarch64)->0,
                socket_candidate: socket_path(host.temp_dir, host.process_id),
                ..self
            };
            if host.virtiofsd_available {
                (
                    QemuView { phase: QemuPhase::Clearing, ..ready },
                    VmRequestView::RemoveFile(ready.socket_candidate),
                )
            } else {
                ready.machine()
            }
        }
    }

    /// How a start goes on. A daemon that does not start is done
    /// without. The machine runs once the emulator is started.
    pub open spec fn resume(self, reply: VmReplyView) -> (QemuView, VmRequestView) {
        match self.phase {
            QemuPhase::Idle => (
                self,
                VmRequestView::Finish(Err(VMErrorView::StartFailed("No start is in progress"@))),
            ),
            QemuPhase::Clearing => (
                QemuView { phase: QemuPhase::Daemon, ..self },
                VmRequestView::Spawn(
                    virtiofsd_command(self.socket_candidate, self.pending->0.workspace_path),
                ),
            ),
            QemuPhase::Daemon => match reply {
                VmReplyView::Spawned(pid) => (
                    QemuView {
                        phase: QemuPhase::Settling,
                        virtiofsd_process: Some(pid),
                        virtiofs_socket: Some(self.socket_candidate),
                        ..self
                    },
                    VmRequestView::Wait(500),
                ),
                _ => self.machine(),
            },
            QemuPhase::Settling => self.machine(),
            QemuPhase::Machine => match reply {
                VmReplyView::Spawned(pid) => (
                    QemuView {
                        phase: QemuPhase::Idle,
                        qemu_process: Some(pid),
                        config: self.pending,
                        pending: None,
                        running: true,
                        sandbox_url: sandbox_url_text(self.pending->0.sandbox_port),
                        ..self
                    },
                    VmRequestView::Finish(Ok(())),
                ),
                VmReplyView::Failed(e) => (
                    QemuView { phase: QemuPhase::Idle, pending: None, ..self },
                    VmRequestView::Finish(
                        Err(VMErrorView::StartFailed("Failed to start QEMU: "@ + e)),
                    ),
                ),
                _ => (
                    QemuView { phase: QemuPhase::Idle, pending: None, ..self },
                    VmRequestView::Finish(
                        Err(VMErrorView::StartFailed("Failed to start QEMU: unexpected reply"@)),
                    ),
                ),
            },
        }
    }

    /// The machine after it was stopped.
    pub open spec fn stopped(self) -> QemuView {
        QemuView {
            qemu_process: None,
            virtiofsd_process: None,
            virtiofs_socket: None,
            running: false,
            phase: QemuPhase::Idle,
            pending: None,
            ..self
        }
    }

    /// The processes to kill when the machine is stopped: the emulator,
    /// then the daemon.
    pub open spec fn to_kill(self) -> Seq<u32> {
        (match self.qemu_process {
            Some(pid) => seq![pid],
            None => Seq::empty(),
        }) + (match self.virtiofsd_process {
            Some(pid) => seq![pid],
            None => Seq::empty(),
        })
    }

    /// The files to remove when the machine is stopped: the socket of
    /// the daemon.
    pub open spec fn to_remove(self) -> Seq<Seq<char>> {
        match self.virtiofs_socket {
            Some(s) => seq![s],
            None => Seq::empty(),
        }
    }

    /// A machine that runs has a process, and a start in progress has
    /// a configuration.
    pub open spec fn wf(self) -> bool {
        &&& self.running ==> self.qemu_process is Some
        &&& self.phase != QemuPhase::Idle ==> self.pending is Some && !self.running
    }
}

impl QemuVM {
    /// A machine that was never started.
    pub fn new() -> (out: Self)
        ensures
            out@.wf(),
            out@ == out@.stopped(),
            !out.running,
            out.qemu_process is None && out.virtiofsd_process is None,
            out.config is None && out.virtiofs_socket is None,
            out.phase == QemuPhase::Idle,
            out.sandbox_url@ == "http://127.0.0.1:8080"@,
    {
        QemuVM {
            qemu_process: None,
            virtiofsd_process: None,
            config: None,
            running: false,
            sandbox_url: "http://127.0.0.1:8080".to_owned(),
            virtiofs_socket: None,
            phase: QemuPhase::Idle,
            pending: None,
            socket_candidate: String::new(),
            use_kvm: false,
            binary: String::new(),
        }
    }

    /// Whether the kernel offers hardware virtualization, given
    /// whether its device exists.
    pub fn is_kvm_available(device_exists: bool) -> (out: bool)
        ensures
            out == device_exists,
    {
        device_exists
    }

    /// The device through which the kernel offers hardware
    /// virtualization.
    pub fn kvm_device() -> (out: &'static str)
        ensures
            out@ == "/dev/kvm"@,
    {
        "/dev/kvm"
    }

    /// The emulator to use, given which ones are installed.
    pub fn find_qemu_binary(x86_64: bool, aarch64: bool) -> (out: Option<String>)
        ensures
            opt_text(out) == installed_qemu(x86_64, aarch64),
    {
        if x86_64 {
            Some("qemu-system-x86_64".to_owned())
        } else if aarch64 {
            Some("qemu-system-aarch64".to_owned())
        } else {
            None
        }
    }

    /// The command that starts the daemon on `socket` for
    /// `workspace_path`.
    pub fn start_virtiofsd(socket: &str, workspace_path: &str) -> (out: CommandSpec)
        ensures
            out@ == virtiofsd_command(socket@, workspace_path@),
    {
        let mut args = no_texts();
        let a = concat2("--socket-path=", socket);
        push_text(&mut args, a.as_str());
        let b = concat2("--shared-dir=", workspace_path);
        push_text(&mut args, b.as_str());
        push_text(&mut args, "--cache=auto");
        push_text(&mut args, "--sandbox=chroot");
        assert(texts(args@) =~= virtiofsd_command(socket@, workspace_path@).args);
        let mut out = CommandSpec::new("virtiofsd", args);
        out.quiet = true;
        out
    }

    /// The command that starts the emulator `binary` for `config`,
    /// with the workspace shared through the daemon where the machine
    /// holds its socket.
    pub fn build_qemu_command(&self, binary: &str, config: &VMConfig, use_kvm: bool) -> (out:
        CommandSpec)
        ensures
            out@ == plain_command(
                binary@,
                qemu_args(binary@, config@, use_kvm, opt_text(self.virtiofs_socket)),
            ),
    {
        let mut args = no_texts();
        if use_kvm {
            push_text(&mut args, "-enable-kvm");
        }
        push_text(&mut args, "-machine");
        push_text(&mut args, machine_name(binary));
        push_text(&mut args, "-cpu");
        if use_kvm {
            push_text(&mut args, "host");
        } else {
            push_text(&mut args, "qemu64");
        }
        assert(texts(args@) =~= machine_args(binary@, use_kvm));
        append_texts(&mut args, build_size_args(config));
        append_texts(&mut args, build_boot_args(config));
        append_texts(&mut args, build_drive_args(config.image_path.as_str()));
        append_texts(&mut args, build_net_args(config.sandbox_port));
        match &self.virtiofs_socket {
            Some(socket) => {
                append_texts(&mut args, build_virtiofs_args(socket.as_str()));
            },
            None => {
                append_texts(&mut args, build_ninep_args(config.workspace_path.as_str()));
            },
        }
        append_texts(&mut args, build_console_args());
        CommandSpec::new(binary, args)
    }

    /// Turns to the emulator.
    fn machine(&mut self) -> (request: VmRequest)
        requires
            old(self).pending is Some,
        ensures
            final(self)@ == old(self)@.machine().0,
            request@ == old(self)@.machine().1,
    {
        self.phase = QemuPhase::Machine;
        let command = match &self.pending {
            Some(config) => self.build_qemu_command(self.binary.as_str(), config, self.use_kvm),
            None => CommandSpec::new("", no_texts()),
        };
        VmRequest::Spawn(command)
    }
}

impl VirtualMachine for QemuVM {
    open spec fn wf(&self) -> bool {
        self@.wf()
    }

    open spec fn running(&self) -> bool {
        self.running
    }

    open spec fn process(&self) -> Option<u32> {
        self.qemu_process
    }

    open spec fn port(&self) -> u16 {
        match self.config {
            Some(c) => c.sandbox_port,
            None => DEFAULT_SANDBOX_PORT,
        }
    }

    open spec fn idle(&self) -> bool {
        self@ == self@.stopped()
    }

    fn start(&mut self, config: &VMConfig, host: &HostFacts) -> (request: VmRequest)
        ensures
            final(self)@ == old(self)@.start(config@, host@).0,
            request@ == old(self)@.start(config@, host@).1,
    {
        if self.running {
            return VmRequest::Finish(Err(VMError::StartFailed("VM is already running".to_owned())));
        }
        let binary = match QemuVM::find_qemu_binary(host.qemu_x86_64, host.qemu_aarch64) {
            None => {
                return VmRequest::Finish(
                    Err(
                        VMError::UnsupportedPlatform(
                            "QEMU is not installed. Please install qemu-system-x86_64.".to_owned(),
                        ),
                    ),
                );
            },
            Some(binary) => binary,
        };
        if !host.image_exists {
            return VmRequest::Finish(Err(VMError::ImageNotFound(config.image_path.clone())));
        }
        self.pending = Some(config.duplicate());
        self.use_kvm = QemuVM::is_kvm_available(host.kvm_available);
        self.binary = binary;
        let pid = decimal_string(host.process_id as u64);
        let name = concat3("orcabot-virtiofs-", pid.as_str(), ".sock");
        self.socket_candidate = join_paths(host.temp_dir.as_str(), name.as_str());
        if host.virtiofsd_available {
            self.phase = QemuPhase::Clearing;
            VmRequest::RemoveFile(self.socket_candidate.clone())
        } else {
            self.machine()
        }
    }

    fn resume(&mut self, reply: VmReply) -> (request: VmRequest)
        ensures
            final(self)@ == old(self)@.resume(reply@).0,
            request@ == old(self)@.resume(reply@).1,
    {
        match self.phase {
            QemuPhase::Idle => VmRequest::Finish(
                Err(VMError::StartFailed("No start is in progress".to_owned())),
            ),
            QemuPhase::Clearing => {
                self.phase = QemuPhase::Daemon;
                let command = match &self.pending {
                    Some(config) => QemuVM::start_virtiofsd(
                        self.socket_candidate.as_str(),
                        config.workspace_path.as_str(),
                    ),
                    None => CommandSpec::new("", no_texts()),
                };
                VmRequest::Spawn(command)
            },
            QemuPhase::Daemon => match reply {
                VmReply::Spawned(pid) => {
                    self.phase = QemuPhase::Settling;
                    self.virtiofsd_process = Some(pid);
                    self.virtiofs_socket = Some(self.socket_candidate.clone());
                    VmRequest::Wait(500)
                },
                _ => self.machine(),
            },
            QemuPhase::Settling => self.machine(),
            QemuPhase::Machine => match reply {
                VmReply::Spawned(pid) => {
                    let mut config: Option<VMConfig> = None;
                    std::mem::swap(&mut config, &mut self.pending);
                    let port = match &config {
                        Some(c) => c.sandbox_port,
                        None => DEFAULT_SANDBOX_PORT,
                    };
                    self.phase = QemuPhase::Idle;
                    self.qemu_process = Some(pid);
                    self.config = config;
                    self.running = true;
                    self.sandbox_url = sandbox_url_for(port);
                    VmRequest::Finish(Ok(()))
                },
                VmReply::Failed(e) => {
                    self.phase = QemuPhase::Idle;
                    self.pending = None;
                    VmRequest::Finish(
                        Err(VMError::StartFailed(concat2("Failed to start QEMU: ", e.as_str()))),
                    )
                },
                _ => {
                    self.phase = QemuPhase::Idle;
                    self.pending = None;
                    VmRequest::Finish(
                        Err(
                            VMError::StartFailed(
                                "Failed to start QEMU: unexpected reply".to_owned(),
                            ),
                        ),
                    )
                },
            },
        }
    }

    fn stop(&mut self) -> (plan: StopPlan)
        ensures
            final(self)@ == old(self)@.stopped(),
            plan.kill@ == old(self)@.to_kill(),
            texts(plan.remove@) == old(self)@.to_remove(),
            plan.run@.len() == 0,
    {
        let mut kill: Vec<u32> = Vec::new();
        match self.qemu_process {
            Some(pid) => {
                kill.push(pid);
            },
            None => {},
        }
        match self.virtiofsd_process {
            Some(pid) => {
                kill.push(pid);
            },
            None => {},
        }
        assert(kill@ =~= self@.to_kill());
        let mut remove = no_texts();
        match &self.virtiofs_socket {
            Some(socket) => {
                push_text(&mut remove, socket.as_str());
            },
            None => {},
        }
        assert(texts(remove@) =~= self@.to_remove());
        self.qemu_process = None;
        self.virtiofsd_process = None;
        self.virtiofs_socket = None;
        self.running = false;
        self.phase = QemuPhase::Idle;
        self.pending = None;
        proof {
            if old(self).qemu_process is Some {
                assert(kill@[0] == old(self).qemu_process->0);
            }
        }
        StopPlan { kill, remove, run: Vec::new() }
    }

    fn is_running(&self, alive: bool) -> (out: bool) {
        self.qemu_process.is_some() && alive
    }

    fn pid(&self) -> (out: Option<u32>) {
        self.qemu_process
    }

    fn sandbox_url(&self) -> (out: Option<String>)
        ensures
            out is Some ==> out->0@ == self.sandbox_url@,
    {
        if self.running {
            Some(self.sandbox_url.clone())
        } else {
            None
        }
    }

    fn wait_for_health(&self, timeout_ms: u64) -> (out: HealthProbe)
        ensures
            !out.backoff,
    {
        let port = match &self.config {
            Some(c) => c.sandbox_port,
            None => DEFAULT_SANDBOX_PORT,
        };
        HealthProbe::new(port, timeout_ms, false)
    }
}

/// Stopping a machine that is stopped changes nothing, kills nothing
/// and removes nothing.
pub proof fn law_stop_twice(v: QemuView)
    ensures
        v.stopped().stopped() == v.stopped(),
        v.stopped().to_kill().len() == 0,
        v.stopped().to_remove().len() == 0,
        v.wf() ==> v.stopped().wf(),
{
    assert(v.stopped().to_kill() =~= Seq::empty());
}

impl Default for QemuVM {
    fn default() -> (out: Self)
        ensures
            out@.wf(),
            out@ == out@.stopped(),
            !out.running,
    {
        QemuVM::new()
    }
}

} // verus!
