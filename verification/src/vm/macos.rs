//! The backend of a macOS host: the native hypervisor through a helper
//! program, and the emulator with hardware acceleration where that
//! fails.

use vstd::prelude::*;
use crate::command::{plain_command, CommandSpec};
use crate::parse::{parse_unsigned, read_unsigned, split, split_on, trim, trimmed};
use crate::path::{join_paths, join_spec, slash_parent_dir, parent_spec};
use crate::text::{
    append_texts, chars_of, concat2, decimal, decimal_string, no_texts, opt_text, push_text, texts,
};
use crate::vm::config::{VMConfig, VMConfigView};
use crate::vm::error::{VMError, VMErrorView};
use crate::vm::health::HealthProbe;
use crate::vm::linux::opt_config;
use crate::vm::qemu::{
    boot_args, build_boot_args, build_console_args, build_drive_args, build_net_args,
    build_ninep_args, build_size_args, console_args, drive_args, net_args, ninep_args, size_args,
};
use crate::vm::{
    already_running, sandbox_url_for, sandbox_url_text, HostArch, HostFacts, HostFactsView,
    StopPlan, VirtualMachine, VmReply, VmReplyView, VmRequest, VmRequestView,
    DEFAULT_SANDBOX_PORT,
};

verus! {

/// How far a start has come.
#[derive(Clone, Copy, PartialEq, Eq, Debug)]
pub enum MacPhase {
    /// No start is in progress.
    Idle,
    /// The helper of the native hypervisor is being started.
    Native,
    /// The emulator is being started.
    Emulator,
}

/// The virtual machine of a macOS host.
pub struct MacOSVM {
    /// The process of the helper or of the emulator.
    pub process: Option<u32>,
    /// The configuration with which the machine was started.
    pub config: Option<VMConfig>,
    pub running: bool,
    pub sandbox_url: String,
    /// Whether the machine runs on the native hypervisor.
    pub using_native_vz: bool,
    pub phase: MacPhase,
    /// The configuration of the start in progress.
    pub pending: Option<VMConfig>,
    /// The emulator of the start in progress, where one is installed.
    pub emulator: Option<String>,
    /// The processor of the host of the start in progress.
    pub arch: HostArch,
}

/// A `MacOSVM` as a plain value.
pub struct MacView {
    pub process: Option<u32>,
    pub config: Option<VMConfigView>,
    pub running: bool,
    pub sandbox_url: Seq<char>,
    pub using_native_vz: bool,
    pub phase: MacPhase,
    pub pending: Option<VMConfigView>,
    pub emulator: Option<Seq<char>>,
    pub arch: HostArch,
}

impl View for MacOSVM {
    type V = MacView;

    open spec fn view(&self) -> MacView {
        MacView {
            process: self.process,
            config: opt_config(self.config),
            running: self.running,
            sandbox_url: self.sandbox_url@,
            using_native_vz: self.using_native_vz,
            phase: self.phase,
            pending: opt_config(self.pending),
            emulator: opt_text(self.emulator),
            arch: self.arch,
        }
    }
}

/// The first major version of the system that has the native
/// hypervisor.
pub const FIRST_VZ_VERSION: u64 = 13;

/// Whether the system of version `version` has the native hypervisor:
/// the number before the first `.` is at least 13.
pub open spec fn vz_available(version: Option<Seq<char>>) -> bool {
    match version {
        Some(text) => match parse_unsigned(split_on(trim(text), '.')[0], 0xffff_ffff) {
            Some(major) => major >= 13,
            None => false,
        },
        None => false,
    }
}

/// The emulator of a host with the processor `arch`.
pub open spec fn emulator_name(arch: HostArch) -> Seq<char> {
    match arch {
        HostArch::Aarch64 => "qemu-system-aarch64"@,
        HostArch::X86_64 => "qemu-system-x86_64"@,
    }
}

/// The emulator of the host, where it is installed.
pub open spec fn installed_emulator(host: HostFactsView) -> Option<Seq<char>> {
    match host.arch {
        HostArch::Aarch64 => if host.qemu_aarch64 {
            Some(emulator_name(host.arch))
        } else {
            None
        },
        HostArch::X86_64 => if host.qemu_x86_64 {
            Some(emulator_name(host.arch))
        } else {
            None
        },
    }
}

/// Where the helper is: where the configuration says, or beside the
/// image.
pub open spec fn helper_path_spec(config: VMConfigView) -> Seq<char> {
    match config.vz_helper_path {
        Some(p) => p,
        None => match parent_spec(config.image_path) {
            Some(dir) => join_spec(dir, "vz-helper"@),
            None => join_spec("."@, "vz-helper"@),
        },
    }
}

/// The kernel command line of the native hypervisor.
pub open spec fn native_cmdline(config: VMConfigView) -> Seq<char> {
    match config.kernel_cmdline {
        Some(c) => c,
        None => "console=hvc0 root=/dev/vda rw"@,
    }
}

/// The arguments of the helper: kernel, initial RAM disk, disk, kernel
/// command line, virtual CPUs, memory in mebibytes, the workspace as a
/// shared directory, and the port to forward.
pub open spec fn native_args(config: VMConfigView) -> Seq<Seq<char>> {
    seq![
        "--kernel"@,
        config.kernel_path->0,
        "--initrd"@,
        config.initrd_path->0,
        "--disk"@,
        config.image_path,
        "--cmdline"@,
        native_cmdline(config),
        "--cpus"@,
        decimal(config.cpus as nat),
        "--memory"@,
        decimal((config.memory_bytes / 1048576) as nat),
        "--share"@,
        "workspace:"@ + config.workspace_path,
        "--port-forward"@,
        decimal(config.sandbox_port as nat) + ":"@ + decimal(config.sandbox_port as nat),
    ]
}

/// The arguments that choose machine and processor of the emulator,
/// with the acceleration of the host.
pub open spec fn hvf_machine_args(arch: HostArch) -> Seq<Seq<char>> {
    match arch {
        HostArch::Aarch64 => seq!["-machine"@, "virt,accel=hvf,highmem=on"@, "-cpu"@, "host"@],
        HostArch::X86_64 => seq!["-machine"@, "q35,accel=hvf"@, "-cpu"@, "host"@],
    }
}

/// The arguments of the emulator for `config`, with the workspace
/// shared over 9p.
pub open spec fn hvf_qemu_args(config: VMConfigView, arch: HostArch) -> Seq<Seq<char>> {
    hvf_machine_args(arch) + size_args(config) + boot_args(config) + drive_args(
        config.image_path,
    ) + net_args(config.sandbox_port) + ninep_args(config.workspace_path) + console_args()
}

/// Why the helper of the native hypervisor cannot be started, if it
/// cannot: it does not exist, or the configuration names no kernel or
/// no initial RAM disk.
pub open spec fn native_refusal(config: VMConfigView, helper_exists: bool) -> Option<VMErrorView> {
    if !helper_exists {
        Some(
            VMErrorView::StartFailed(
                "Virtualization.framework helper not found at "@ + helper_path_spec(config)
                    + ". Falling back to QEMU."@,
            ),
        )
    } else if config.kernel_path is None {
        Some(VMErrorView::StartFailed("Kernel path required for VZ"@))
    } else if config.initrd_path is None {
        Some(VMErrorView::StartFailed("Initrd path required for VZ"@))
    } else {
        None
    }
}

/// Whether the native hypervisor is tried: the system has it, and
/// nothing keeps the helper from being started.
pub open spec fn native_possible(config: VMConfigView, host: HostFactsView) -> bool {
    vz_available(host.product_version) && native_refusal(config, host.helper_exists) is None
}

impl MacView {
    /// The emulator is tried, where it is installed.
    pub open spec fn fall_back(self) -> (MacView, VmRequestView) {
        match self.emulator {
            Some(binary) => (
                MacView { phase: MacPhase::Emulator, ..self },
                VmRequestView::Spawn(
                    plain_command(binary, hvf_qemu_args(self.pending->0, self.arch)),
                ),
            ),
            None => (
                MacView { phase: MacPhase::Idle, pending: None, ..self },
                VmRequestView::Finish(
                    Err(
                        VMErrorView::UnsupportedPlatform(
                            "No VM backend available. macOS 13+ required for Virtualization.framework."@,
                        ),
                    ),
                ),
            ),
        }
    }

    /// How a start begins. It is refused while the machine runs and
    /// where the image is missing. The native hypervisor is tried first
    /// where it can be, else the emulator.
    pub open spec fn start(self, config: VMConfigView, host: HostFactsView) -> (
        MacView,
        VmRequestView,
    ) {
        if self.running {
            (self, already_running())
        } else if !host.image_exists {
            (self, VmRequestView::Finish(Err(VMErrorView::ImageNotFound(config.image_path))))
        } else {
            let ready = MacView {
                pending: Some(config),
                emulator: installed_emulator(host),
                arch: host.arch,
                ..self
            };
            if native_possible(config, host) {
                (
                    MacView { phase: MacPhase::Native, ..ready },
                    VmRequestView::Spawn(
                        plain_command(helper_path_spec(config), native_args(config)),
                    ),
                )
            } else {
                ready.fall_back()
            }
        }
    }

    /// The machine runs as the process `pid`.
    pub open spec fn started(self, pid: u32, native: bool) -> (MacView, VmRequestView) {
        (
            MacView {
                phase: MacPhase::Idle,
                process: Some(pid),
                config: self.pending,
                pending: None,
                running: true,
                using_native_vz: native,
                sandbox_url: sandbox_url_text(self.pending->0.sandbox_port),
                ..self
            },
            VmRequestView::Finish(Ok(())),
        )
    }

    /// The start fails with `message`.
    pub open spec fn failed(self, message: Seq<char>) -> (MacView, VmRequestView) {
        (
            MacView { phase: MacPhase::Idle, pending: None, ..self },
            VmRequestView::Finish(Err(VMErrorView::StartFailed(message))),
        )
    }

    /// How a start goes on. A helper that does not start gives way to
    /// the emulator.
    pub open spec fn resume(self, reply: VmReplyView) -> (MacView, VmRequestView) {
        match self.phase {
            MacPhase::Idle => (
                self,
                VmRequestView::Finish(Err(VMErrorView::StartFailed("No start is in progress"@))),
            ),
            MacPhase::Native => match reply {
                VmReplyView::Spawned(pid) => self.started(pid, true),
                _ => self.fall_back(),
            },
            MacPhase::Emulator => match reply {
                VmReplyView::Spawned(pid) => self.started(pid, false),
                VmReplyView::Failed(e) => self.failed("Failed to start QEMU: "@ + e),
                _ => self.failed("Failed to start QEMU: unexpected reply"@),
            },
        }
    }

    /// The machine after it was stopped.
    pub open spec fn stopped(self) -> MacView {
        MacView { process: None, running: false, phase: MacPhase::Idle, pending: None, ..self }
    }

    /// The processes to kill when the machine is stopped.
    pub open spec fn to_kill(self) -> Seq<u32> {
        match self.process {
            Some(pid) => seq![pid],
            None => Seq::empty(),
        }
    }

    /// A machine that runs has a process, and a start in progress has
    /// a configuration.
    pub open spec fn wf(self) -> bool {
        &&& self.running ==> self.process is Some
        &&& self.phase != MacPhase::Idle ==> self.pending is Some && !self.running
    }
}

impl MacOSVM {
    /// A machine that was never started.
    pub fn new() -> (out: Self)
        ensures
            out@.wf(),
            out@ == out@.stopped(),
            !out.running,
            out.process is None,
            out.config is None,
            !out.using_native_vz,
            out.phase == MacPhase::Idle,
            out.sandbox_url@ == "http://127.0.0.1:8080"@,
    {
        MacOSVM {
            process: None,
            config: None,
            running: false,
            sandbox_url: "http://127.0.0.1:8080".to_owned(),
            using_native_vz: false,
            phase: MacPhase::Idle,
            pending: None,
            emulator: None,
            arch: HostArch::Aarch64,
        }
    }

    /// Whether the system has the native hypervisor, given what it
    /// says its version is.
    pub fn is_vz_available(product_version: &Option<String>) -> (out: bool)
        ensures
            out == vz_available(opt_text(*product_version)),
    {
        match product_version {
            None => false,
            Some(text) => {
                let chars = chars_of(text.as_str());
                let clean = trimmed(&chars);
                let parts = split(&clean, '.');
                match read_unsigned(&parts[0], 0xffff_ffff) {
                    Some(major) => major >= FIRST_VZ_VERSION,
                    None => false,
                }
            },
        }
    }

    /// The emulator of the host, where it is installed.
    pub fn is_qemu_available(host: &HostFacts) -> (out: Option<String>)
        ensures
            opt_text(out) == installed_emulator(host@),
    {
        match host.arch {
            HostArch::Aarch64 => if host.qemu_aarch64 {
                Some("qemu-system-aarch64".to_owned())
            } else {
                None
            },
            HostArch::X86_64 => if host.qemu_x86_64 {
                Some("qemu-system-x86_64".to_owned())
            } else {
                None
            },
        }
    }

    /// Where the helper of the native hypervisor is looked for.
    pub fn helper_path(config: &VMConfig) -> (out: String)
        ensures
            out@ == helper_path_spec(config@),
    {
        match &config.vz_helper_path {
            Some(p) => p.clone(),
            None => match slash_parent_dir(config.image_path.as_str()) {
                Some(dir) => join_paths(dir.as_str(), "vz-helper"),
                None => join_paths(".", "vz-helper"),
            },
        }
    }

    /// The command that starts the machine on the native hypervisor,
    /// or why the helper cannot be started. `helper_exists` says
    /// whether the helper was found.
    pub fn start_native(config: &VMConfig, helper_exists: bool) -> (out: Result<
        CommandSpec,
        VMError,
    >)
        ensures
            out is Err == native_refusal(config@, helper_exists) is Some,
            out is Err ==> Some(out->Err_0@) == native_refusal(config@, helper_exists),
            out is Ok ==> out->Ok_0@ == plain_command(
                helper_path_spec(config@),
                native_args(config@),
            ),
    {
        let helper = MacOSVM::helper_path(config);
        if !helper_exists {
            return Err(
                VMError::StartFailed(
                    crate::text::concat3(
                        "Virtualization.framework helper not found at ",
                        helper.as_str(),
                        ". Falling back to QEMU.",
                    ),
                ),
            );
        }
        let kernel = match &config.kernel_path {
            Some(k) => k,
            None => {
                return Err(VMError::StartFailed("Kernel path required for VZ".to_owned()));
            },
        };
        let initrd = match &config.initrd_path {
            Some(i) => i,
            None => {
                return Err(VMError::StartFailed("Initrd path required for VZ".to_owned()));
            },
        };
        let mut args = no_texts();
        push_text(&mut args, "--kernel");
        push_text(&mut args, kernel.as_str());
        push_text(&mut args, "--initrd");
        push_text(&mut args, initrd.as_str());
        push_text(&mut args, "--disk");
        push_text(&mut args, config.image_path.as_str());
        push_text(&mut args, "--cmdline");
        match &config.kernel_cmdline {
            Some(c) => {
                push_text(&mut args, c.as_str());
            },
            None => {
                push_text(&mut args, "console=hvc0 root=/dev/vda rw");
            },
        }
        push_text(&mut args, "--cpus");
        let cpus = decimal_string(config.cpus as u64);
        push_text(&mut args, cpus.as_str());
        push_text(&mut args, "--memory");
        let mb = decimal_string(config.memory_mb());
        push_text(&mut args, mb.as_str());
        push_text(&mut args, "--share");
        let share = concat2("workspace:", config.workspace_path.as_str());
        push_text(&mut args, share.as_str());
        push_text(&mut args, "--port-forward");
        let port = decimal_string(config.sandbox_port as u64);
        let forward = crate::text::concat3(port.as_str(), ":", port.as_str());
        push_text(&mut args, forward.as_str());
        assert(texts(args@) =~= native_args(config@));
        Ok(CommandSpec::new(helper.as_str(), args))
    }

    /// The command that starts the machine in the emulator `binary`.
    pub fn start_qemu(binary: &str, config: &VMConfig, arch: HostArch) -> (out: CommandSpec)
        ensures
            out@ == plain_command(binary@, hvf_qemu_args(config@, arch)),
    {
        let mut args = no_texts();
        push_text(&mut args, "-machine");
        match arch {
            HostArch::Aarch64 => {
                push_text(&mut args, "virt,accel=hvf,highmem=on");
            },
            HostArch::X86_64 => {
                push_text(&mut args, "q35,accel=hvf");
            },
        }
        push_text(&mut args, "-cpu");
        push_text(&mut args, "host");
        assert(texts(args@) =~= hvf_machine_args(arch));
        append_texts(&mut args, build_size_args(config));
        append_texts(&mut args, build_boot_args(config));
        append_texts(&mut args, build_drive_args(config.image_path.as_str()));
        append_texts(&mut args, build_net_args(config.sandbox_port));
        append_texts(&mut args, build_ninep_args(config.workspace_path.as_str()));
        append_texts(&mut args, build_console_args());
        CommandSpec::new(binary, args)
    }

    /// Turns to the emulator.
    fn fall_back(&mut self) -> (request: VmRequest)
        requires
            old(self).pending is Some,
        ensures
            final(self)@ == old(self)@.fall_back().0,
            request@ == old(self)@.fall_back().1,
    {
        match &self.emulator {
            Some(binary) => {
                let command = match &self.pending {
                    Some(config) => MacOSVM::start_qemu(binary.as_str(), config, self.arch),
                    None => CommandSpec::new("", no_texts()),
                };
                self.phase = MacPhase::Emulator;
                VmRequest::Spawn(command)
            },
            None => {
                self.phase = MacPhase::Idle;
                self.pending = None;
                VmRequest::Finish(
                    Err(
                        VMError::UnsupportedPlatform(
                            "No VM backend available. macOS 13+ required for Virtualization.framework.".to_owned(),
                        ),
                    ),
                )
            },
        }
    }

    /// Records that the machine runs as the process `pid`.
    fn started(&mut self, pid: u32, native: bool) -> (request: VmRequest)
        requires
            old(self).pending is Some,
        ensures
            final(self)@ == old(self)@.started(pid, native).0,
            request@ == old(self)@.started(pid, native).1,
    {
        let mut config: Option<VMConfig> = None;
        std::mem::swap(&mut config, &mut self.pending);
        let port = match &config {
            Some(c) => c.sandbox_port,
            None => DEFAULT_SANDBOX_PORT,
        };
        self.phase = MacPhase::Idle;
        self.process = Some(pid);
        self.config = config;
        self.running = true;
        self.using_native_vz = native;
        self.sandbox_url = sandbox_url_for(port);
        VmRequest::Finish(Ok(()))
    }

    /// Ends the start with `message`.
    fn failed(&mut self, message: String) -> (request: VmRequest)
        ensures
            final(self)@ == old(self)@.failed(message@).0,
            request@ == old(self)@.failed(message@).1,
    {
        self.phase = MacPhase::Idle;
        self.pending = None;
        VmRequest::Finish(Err(VMError::StartFailed(message)))
    }
}

impl VirtualMachine for MacOSVM {
    open spec fn wf(&self) -> bool {
        self@.wf()
    }

    open spec fn running(&self) -> bool {
        self.running
    }

    open spec fn process(&self) -> Option<u32> {
        self.process
    }

    open spec fn port(&self) -> u16 {
        match self.config {
            Some(c) => c.sandbox_port,
            None => DEFAULT_SANDBOX_PORT,
        }
    }

    open spec fn idle(&self) -> bool {
        self@ == self@.stopped()
    }

    fn start(&mut self, config: &VMConfig, host: &HostFacts) -> (request: VmRequest)
        ensures
            final(self)@ == old(self)@.start(config@, host@).0,
            request@ == old(self)@.start(config@, host@).1,
    {
        if self.running {
            return VmRequest::Finish(Err(VMError::StartFailed("VM is already running".to_owned())));
        }
        if !host.image_exists {
            return VmRequest::Finish(Err(VMError::ImageNotFound(config.image_path.clone())));
        }
        self.pending = Some(config.duplicate());
        self.emulator = MacOSVM::is_qemu_available(host);
        self.arch = host.arch;
        if MacOSVM::is_vz_available(&host.product_version) {
            match MacOSVM::start_native(config, host.helper_exists) {
                Ok(command) => {
                    self.phase = MacPhase::Native;
                    return VmRequest::Spawn(command);
                },
                Err(_) => {},
            }
        }
        self.fall_back()
    }

    fn resume(&mut self, reply: VmReply) -> (request: VmRequest)
        ensures
            final(self)@ == old(self)@.resume(reply@).0,
            request@ == old(self)@.resume(reply@).1,
    {
        match self.phase {
            MacPhase::Idle => VmRequest::Finish(
                Err(VMError::StartFailed("No start is in progress".to_owned())),
            ),
            MacPhase::Native => match reply {
                VmReply::Spawned(pid) => self.started(pid, true),
                _ => self.fall_back(),
            },
            MacPhase::Emulator => match reply {
                VmReply::Spawned(pid) => self.started(pid, false),
                VmReply::Failed(e) => self.failed(concat2("Failed to start QEMU: ", e.as_str())),
                _ => self.failed("Failed to start QEMU: unexpected reply".to_owned()),
            },
        }
    }

    fn stop(&mut self) -> (plan: StopPlan)
        ensures
            final(self)@ == old(self)@.stopped(),
            plan.kill@ == old(self)@.to_kill(),
            plan.remove@.len() == 0,
            plan.run@.len() == 0,
    {
        let mut kill: Vec<u32> = Vec::new();
        match self.process {
            Some(pid) => {
                kill.push(pid);
                assert(kill@[0] == pid);
            },
            None => {},
        }
        assert(kill@ =~= self@.to_kill());
        self.process = None;
        self.running = false;
        self.phase = MacPhase::Idle;
        self.pending = None;
        StopPlan { kill, remove: Vec::new(), run: Vec::new() }
    }

    fn is_running(&self, alive: bool) -> (out: bool) {
        self.process.is_some() && alive
    }

    fn pid(&self) -> (out: Option<u32>) {
        self.process
    }

    fn sandbox_url(&self) -> (out: Option<String>)
        ensures
            out is Some ==> out->0@ == self.sandbox_url@,
    {
        if self.running {
            Some(self.sandbox_url.clone())
        } else {
            None
        }
    }

    fn wait_for_health(&self, timeout_ms: u64) -> (out: HealthProbe)
        ensures
            out.backoff,
    {
        let port = match &self.config {
            Some(c) => c.sandbox_port,
            None => DEFAULT_SANDBOX_PORT,
        };
        HealthProbe::new(port, timeout_ms, true)
    }
}

/// Stopping a machine that is stopped changes nothing and kills nothing.
pub proof fn law_stop_twice(v: MacView)
    ensures
        v.stopped().stopped() == v.stopped(),
        v.stopped().to_kill().len() == 0,
        v.wf() ==> v.stopped().wf(),
{
}

impl Default for MacOSVM {
    fn default() -> (out: Self)
        ensures
            out@.wf(),
            out@ == out@.stopped(),
            !out.running,
    {
        MacOSVM::new()
    }
}

} // verus!
