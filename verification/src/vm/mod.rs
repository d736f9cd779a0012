//! Virtual machines that run the sandbox server: the configuration,
//! the errors, the staging of artifacts and the backends of each host.

pub mod config;
pub mod error;
pub mod health;
pub mod image;
pub mod linux;
pub mod macos;
pub mod qemu;
pub mod windows;

pub use config::VMConfig;
pub use error::VMError;

use vstd::prelude::*;
use crate::command::{commands_view, CommandSpec, CommandView};
use crate::text::{opt_text, texts};
use crate::vm::error::VMErrorView;
use crate::vm::health::HealthProbe;

verus! {

/// The operating system of the host.
#[derive(Clone, Copy, PartialEq, Eq, Debug)]
pub enum HostOs {
    MacOS,
    Windows,
    Linux,
    Other,
}

/// The processor of the host.
#[derive(Clone, Copy, PartialEq, Eq, Debug)]
pub enum HostArch {
    Aarch64,
    X86_64,
}

/// The name of the backend of a host.
pub open spec fn backend_name(os: HostOs) -> Seq<char> {
    match os {
        HostOs::MacOS => "Virtualization.framework"@,
        HostOs::Windows => "WSL2"@,
        HostOs::Linux => "QEMU/KVM"@,
        HostOs::Other => "unsupported"@,
    }
}

/// The name of the backend that runs virtual machines on the host `os`.
pub fn vm_backend_name(os: HostOs) -> (out: &'static str)
    ensures
        out@ == backend_name(os),
{
    match os {
        HostOs::MacOS => "Virtualization.framework",
        HostOs::Windows => "WSL2",
        HostOs::Linux => "QEMU/KVM",
        HostOs::Other => "unsupported",
    }
}

/// What was found on the host before a virtual machine is started.
pub struct HostFacts {
    pub arch: HostArch,
    /// Whether the image of the configuration exists.
    pub image_exists: bool,
    /// Whether the emulator for x86-64 is installed.
    pub qemu_x86_64: bool,
    /// Whether the emulator for aarch64 is installed.
    pub qemu_aarch64: bool,
    /// Whether the kernel offers hardware virtualization to the emulator.
    pub kvm_available: bool,
    /// Whether the virtio-fs daemon is installed.
    pub virtiofsd_available: bool,
    /// The directory for temporary files.
    pub temp_dir: String,
    /// The identifier of this process.
    pub process_id: u32,
    /// What the system says its version is, where it could be asked.
    pub product_version: Option<String>,
    /// Whether the helper for the native hypervisor exists.
    pub helper_exists: bool,
    /// Whether the lightweight-VM subsystem is usable.
    pub wsl_available: bool,
    /// The distributions of the subsystem, one to a line, where they
    /// could be listed.
    pub distro_list: Option<String>,
    /// The directory for the data of local applications, where it is set.
    pub local_app_data: Option<String>,
}

/// A `HostFacts` as a plain value.
pub struct HostFactsView {
    pub arch: HostArch,
    pub image_exists: bool,
    pub qemu_x86_64: bool,
    pub qemu_aarch64: bool,
    pub kvm_available: bool,
    pub virtiofsd_available: bool,
    pub temp_dir: Seq<char>,
    pub process_id: u32,
    pub product_version: Option<Seq<char>>,
    pub helper_exists: bool,
    pub wsl_available: bool,
    pub distro_list: Option<Seq<char>>,
    pub local_app_data: Option<Seq<char>>,
}

impl View for HostFacts {
    type V = HostFactsView;

    open spec fn view(&self) -> HostFactsView {
        HostFactsView {
            arch: self.arch,
            image_exists: self.image_exists,
            qemu_x86_64: self.qemu_x86_64,
            qemu_aarch64: self.qemu_aarch64,
            kvm_available: self.kvm_available,
            virtiofsd_available: self.virtiofsd_available,
            temp_dir: self.temp_dir@,
            process_id: self.process_id,
            product_version: opt_text(self.product_version),
            helper_exists: self.helper_exists,
            wsl_available: self.wsl_available,
            distro_list: opt_text(self.distro_list),
            local_app_data: opt_text(self.local_app_data),
        }
    }
}

/// What a backend asks its caller to do while it starts.
pub enum VmRequest {
    /// Start the command and let it run; report its process or why it
    /// could not be started.
    Spawn(CommandSpec),
    /// Run the command to its end; report how it ended.
    Run(CommandSpec),
    /// Create the directory and those above it.
    CreateDir(String),
    /// Remove the file, if it is there.
    RemoveFile(String),
    /// Wait this many milliseconds.
    Wait(u64),
    /// The start is over.
    Finish(Result<(), VMError>),
}

/// A `VmRequest` as a plain value.
pub enum VmRequestView {
    Spawn(CommandView),
    Run(CommandView),
    CreateDir(Seq<char>),
    RemoveFile(Seq<char>),
    Wait(u64),
    Finish(Result<(), VMErrorView>),
}

impl View for VmRequest {
    type V = VmRequestView;

    open spec fn view(&self) -> VmRequestView {
        match self {
            VmRequest::Spawn(c) => VmRequestView::Spawn(c@),
            VmRequest::Run(c) => VmRequestView::Run(c@),
            VmRequest::CreateDir(p) => VmRequestView::CreateDir(p@),
            VmRequest::RemoveFile(p) => VmRequestView::RemoveFile(p@),
            VmRequest::Wait(ms) => VmRequestView::Wait(*ms),
            VmRequest::Finish(Ok(_)) => VmRequestView::Finish(Ok(())),
            VmRequest::Finish(Err(e)) => VmRequestView::Finish(Err(e@)),
        }
    }
}

/// What the caller reports back to a backend.
pub enum VmReply {
    /// The command runs, as this process.
    Spawned(u32),
    /// The command could not be started or run; the reason.
    Failed(String),
    /// The command ran to its end.
    Ran { success: bool, stderr: String },
    /// The directory could not be created.
    CreateFailed(std::io::Error),
    /// The request was carried out.
    Done,
}

/// A `VmReply` as a plain value.
pub enum VmReplyView {
    Spawned(u32),
    Failed(Seq<char>),
    Ran { success: bool, stderr: Seq<char> },
    CreateFailed(std::io::Error),
    Done,
}

impl View for VmReply {
    type V = VmReplyView;

    open spec fn view(&self) -> VmReplyView {
        match self {
            VmReply::Spawned(pid) => VmReplyView::Spawned(*pid),
            VmReply::Failed(e) => VmReplyView::Failed(e@),
            VmReply::Ran { success, stderr } => VmReplyView::Ran {
                success: *success,
                stderr: stderr@,
            },
            VmReply::CreateFailed(e) => VmReplyView::CreateFailed(*e),
            VmReply::Done => VmReplyView::Done,
        }
    }
}

/// What is to be done to stop a backend. Every part is best effort:
/// a failure is passed over.
pub struct StopPlan {
    /// The processes to kill and wait for, in this order.
    pub kill: Vec<u32>,
    /// The files to remove.
    pub remove: Vec<String>,
    /// The commands to run to their end.
    pub run: Vec<CommandSpec>,
}

/// A `StopPlan` as a plain value.
pub struct StopPlanView {
    pub kill: Seq<u32>,
    pub remove: Seq<Seq<char>>,
    pub run: Seq<CommandView>,
}

impl View for StopPlan {
    type V = StopPlanView;

    open spec fn view(&self) -> StopPlanView {
        StopPlanView {
            kill: self.kill@,
            remove: texts(self.remove@),
            run: commands_view(self.run@),
        }
    }
}

/// The error of a start while the machine is running.
pub open spec fn already_running() -> VmRequestView {
    VmRequestView::Finish(Err(VMErrorView::StartFailed("VM is already running"@)))
}

/// The address under which the sandbox is reached on the host.
pub open spec fn sandbox_url_text(port: u16) -> Seq<char> {
    "http://127.0.0.1:"@ + crate::text::decimal(port as nat)
}

/// The address under which the sandbox is reached on the host.
pub fn sandbox_url_for(port: u16) -> (out: String)
    ensures
        out@ == sandbox_url_text(port),
{
    let p = crate::text::decimal_string(port as u64);
    crate::text::concat2("http://127.0.0.1:", p.as_str())
}

/// The port of the sandbox unless a configuration names another.
pub const DEFAULT_SANDBOX_PORT: u16 = 8080;

/// A backend that runs the sandbox in a virtual machine.
///
/// A backend decides and keeps the books; its caller starts and kills
/// processes. `start` gives the first request of a start and `resume`
/// each further one, until `Finish`.
pub trait VirtualMachine {
    /// Whether the books are in order.
    spec fn wf(&self) -> bool;

    /// Whether the machine was started and not stopped since.
    spec fn running(&self) -> bool;

    /// The process of the machine, while there is one.
    spec fn process(&self) -> Option<u32>;

    /// The port of the sandbox service.
    spec fn port(&self) -> u16;

    /// Whether the machine holds nothing: no process, no file, no start
    /// in progress.
    spec fn idle(&self) -> bool;

    /// Begins a start with `config` on a host of which `host` holds.
    /// A machine that is running refuses and stays as it is.
    fn start(&mut self, config: &VMConfig, host: &HostFacts) -> (request: VmRequest)
        requires
            old(self).wf(),
        ensures
            final(self).wf(),
            old(self).running() ==> request@ == already_running() && final(self).running()
                && final(self).process() == old(self).process(),
            !old(self).running() ==> !final(self).running(),
    ;

    /// Takes the reply to the request at hand and gives the next one.
    /// The machine runs from the moment at which the start ends well.
    fn resume(&mut self, reply: VmReply) -> (request: VmRequest)
        requires
            old(self).wf(),
        ensures
            final(self).wf(),
            !old(self).running() ==> (final(self).running() <==> request@ == VmRequestView::Finish(
                Ok(()),
            )),
            final(self).running() ==> final(self).process() is Some,
    ;

    /// Stops the machine: what is to be killed, removed and run.
    /// Stopping never fails. A machine that is stopped holds nothing,
    /// and stopping a machine that holds nothing kills and removes
    /// nothing.
    fn stop(&mut self) -> (plan: StopPlan)
        requires
            old(self).wf(),
        ensures
            final(self).wf(),
            final(self).idle(),
            !final(self).running(),
            final(self).process() is None,
            old(self).process() is Some ==> plan.kill@.contains(old(self).process()->0),
            old(self).idle() ==> plan.kill@.len() == 0 && plan.remove@.len() == 0,
    ;

    /// Whether the machine runs, given whether its process is alive.
    fn is_running(&self, alive: bool) -> (out: bool)
        ensures
            out == (self.process() is Some && alive),
    ;

    /// The process of the machine, for the file of processes.
    fn pid(&self) -> (out: Option<u32>)
        ensures
            out == self.process(),
    ;

    /// The address of the sandbox on the host, while the machine runs.
    fn sandbox_url(&self) -> (out: Option<String>)
        ensures
            out is Some == self.running(),
    ;

    /// The health check of the sandbox that gives up after `timeout_ms`
    /// milliseconds.
    fn wait_for_health(&self, timeout_ms: u64) -> (out: HealthProbe)
        ensures
            out.wf(),
            out.timeout_ms == timeout_ms,
            out.port == self.port(),
            out.delay_ms == crate::vm::health::FIRST_DELAY_MS,
    ;
}

/// The backend of a host: one of the three.
pub enum PlatformVM {
    MacOS(macos::MacOSVM),
    Windows(windows::WslVM),
    Linux(linux::QemuVM),
}

/// A `PlatformVM` as a plain value.
pub enum PlatformView {
    MacOS(macos::MacView),
    Windows(windows::WslView),
    Linux(linux::QemuView),
}

impl View for PlatformVM {
    type V = PlatformView;

    open spec fn view(&self) -> PlatformView {
        match self {
            PlatformVM::MacOS(vm) => PlatformView::MacOS(vm@),
            PlatformVM::Windows(vm) => PlatformView::Windows(vm@),
            PlatformVM::Linux(vm) => PlatformView::Linux(vm@),
        }
    }
}

impl PlatformView {
    /// How a start begins, by backend.
    pub open spec fn start(self, config: config::VMConfigView, host: HostFactsView) -> (
        PlatformView,
        VmRequestView,
    ) {
        match self {
            PlatformView::MacOS(vm) => (
                PlatformView::MacOS(vm.start(config, host).0),
                vm.start(config, host).1,
            ),
            PlatformView::Windows(vm) => (
                PlatformView::Windows(vm.start(config, host).0),
                vm.start(config, host).1,
            ),
            PlatformView::Linux(vm) => (
                PlatformView::Linux(vm.start(config, host).0),
                vm.start(config, host).1,
            ),
        }
    }

    /// How a start goes on, by backend.
    pub open spec fn resume(self, reply: VmReplyView) -> (PlatformView, VmRequestView) {
        match self {
            PlatformView::MacOS(vm) => (PlatformView::MacOS(vm.resume(reply).0), vm.resume(reply).1),
            PlatformView::Windows(vm) => (
                PlatformView::Windows(vm.resume(reply).0),
                vm.resume(reply).1,
            ),
            PlatformView::Linux(vm) => (PlatformView::Linux(vm.resume(reply).0), vm.resume(reply).1),
        }
    }

    /// The machine after it was stopped.
    pub open spec fn stopped(self) -> PlatformView {
        match self {
            PlatformView::MacOS(vm) => PlatformView::MacOS(vm.stopped()),
            PlatformView::Windows(vm) => PlatformView::Windows(vm.stopped()),
            PlatformView::Linux(vm) => PlatformView::Linux(vm.stopped()),
        }
    }

    /// The processes to kill when the machine is stopped.
    pub open spec fn to_kill(self) -> Seq<u32> {
        match self {
            PlatformView::MacOS(vm) => vm.to_kill(),
            PlatformView::Windows(vm) => vm.to_kill(),
            PlatformView::Linux(vm) => vm.to_kill(),
        }
    }

    /// The files to remove when the machine is stopped.
    pub open spec fn to_remove(self) -> Seq<Seq<char>> {
        match self {
            PlatformView::Linux(vm) => vm.to_remove(),
            _ => Seq::empty(),
        }
    }

    /// The commands to run when the machine is stopped.
    pub open spec fn to_run(self) -> Seq<CommandView> {
        match self {
            PlatformView::Windows(vm) => seq![windows::terminate_command()],
            _ => Seq::empty(),
        }
    }

    /// The process of the machine, while there is one.
    pub open spec fn process(self) -> Option<u32> {
        match self {
            PlatformView::MacOS(vm) => vm.process,
            PlatformView::Windows(vm) => vm.process,
            PlatformView::Linux(vm) => vm.qemu_process,
        }
    }

    /// Whether the machine runs.
    pub open spec fn running(self) -> bool {
        match self {
            PlatformView::MacOS(vm) => vm.running,
            PlatformView::Windows(vm) => vm.running,
            PlatformView::Linux(vm) => vm.running,
        }
    }

    /// The address of the sandbox that the machine holds.
    pub open spec fn sandbox_url(self) -> Seq<char> {
        match self {
            PlatformView::MacOS(vm) => vm.sandbox_url,
            PlatformView::Windows(vm) => vm.sandbox_url,
            PlatformView::Linux(vm) => vm.sandbox_url,
        }
    }
}

/// On every backend, stopping a machine that is stopped changes
/// nothing, kills nothing and removes nothing.
pub proof fn law_stop_is_idempotent(v: PlatformView)
    ensures
        v.stopped().stopped() == v.stopped(),
        v.stopped().to_kill().len() == 0,
        v.stopped().to_remove().len() == 0,
{
    match v {
        PlatformView::MacOS(vm) => macos::law_stop_twice(vm),
        PlatformView::Windows(vm) => windows::law_stop_twice(vm),
        PlatformView::Linux(vm) => linux::law_stop_twice(vm),
    }
}

/// On every backend, a start is refused while the machine runs, with
/// the machine left as it is, and only then is it refused for that
/// reason.
pub proof fn law_start_refused_while_running(
    v: PlatformView,
    config: config::VMConfigView,
    host: HostFactsView,
)
    ensures
        v.running() ==> v.start(config, host) == (v, already_running()),
        !v.running() ==> v.start(config, host).1 != already_running(),
{
    reveal_strlit("VM is already running");
    reveal_strlit("Could not determine LOCALAPPDATA path");
    assert("VM is already running"@.len() == 21);
    assert("Could not determine LOCALAPPDATA path"@.len() == 37);
}

impl VirtualMachine for PlatformVM {
    open spec fn wf(&self) -> bool {
        match self {
            PlatformVM::MacOS(vm) => vm.wf(),
            PlatformVM::Windows(vm) => vm.wf(),
            PlatformVM::Linux(vm) => vm.wf(),
        }
    }

    open spec fn running(&self) -> bool {
        match self {
            PlatformVM::MacOS(vm) => vm.running(),
            PlatformVM::Windows(vm) => vm.running(),
            PlatformVM::Linux(vm) => vm.running(),
        }
    }

    open spec fn process(&self) -> Option<u32> {
        match self {
            PlatformVM::MacOS(vm) => vm.process(),
            PlatformVM::Windows(vm) => vm.process(),
            PlatformVM::Linux(vm) => vm.process(),
        }
    }

    open spec fn port(&self) -> u16 {
        match self {
            PlatformVM::MacOS(vm) => vm.port(),
            PlatformVM::Windows(vm) => vm.port(),
            PlatformVM::Linux(vm) => vm.port(),
        }
    }

    open spec fn idle(&self) -> bool {
        match self {
            PlatformVM::MacOS(vm) => vm.idle(),
            PlatformVM::Windows(vm) => vm.idle(),
            PlatformVM::Linux(vm) => vm.idle(),
        }
    }

    fn start(&mut self, config: &VMConfig, host: &HostFacts) -> (request: VmRequest)
        ensures
            final(self)@ == old(self)@.start(config@, host@).0,
            request@ == old(self)@.start(config@, host@).1,
    {
        match self {
            PlatformVM::MacOS(vm) => vm.start(config, host),
            PlatformVM::Windows(vm) => vm.start(config, host),
            PlatformVM::Linux(vm) => vm.start(config, host),
        }
    }

    fn resume(&mut self, reply: VmReply) -> (request: VmRequest)
        ensures
            final(self)@ == old(self)@.resume(reply@).0,
            request@ == old(self)@.resume(reply@).1,
    {
        match self {
            PlatformVM::MacOS(vm) => vm.resume(reply),
            PlatformVM::Windows(vm) => vm.resume(reply),
            PlatformVM::Linux(vm) => vm.resume(reply),
        }
    }

    fn stop(&mut self) -> (plan: StopPlan)
        ensures
            final(self)@ == old(self)@.stopped(),
            plan.kill@ == old(self)@.to_kill(),
            texts(plan.remove@) == old(self)@.to_remove(),
            commands_view(plan.run@) == old(self)@.to_run(),
    {
        match self {
            PlatformVM::MacOS(vm) => {
                let plan = vm.stop();
                assert(texts(plan.remove@) =~= Seq::empty());
                assert(commands_view(plan.run@) =~= Seq::empty());
                plan
            },
            PlatformVM::Windows(vm) => {
                let plan = vm.stop();
                assert(texts(plan.remove@) =~= Seq::empty());
                plan
            },
            PlatformVM::Linux(vm) => {
                let plan = vm.stop();
                assert(commands_view(plan.run@) =~= Seq::empty());
                plan
            },
        }
    }

    fn is_running(&self, alive: bool) -> (out: bool) {
        match self {
            PlatformVM::MacOS(vm) => vm.is_running(alive),
            PlatformVM::Windows(vm) => vm.is_running(alive),
            PlatformVM::Linux(vm) => vm.is_running(alive),
        }
    }

    fn pid(&self) -> (out: Option<u32>) {
        match self {
            PlatformVM::MacOS(vm) => vm.pid(),
            PlatformVM::Windows(vm) => vm.pid(),
            PlatformVM::Linux(vm) => vm.pid(),
        }
    }

    fn sandbox_url(&self) -> (out: Option<String>)
        ensures
            out is Some ==> out->0@ == self@.sandbox_url(),
    {
        match self {
            PlatformVM::MacOS(vm) => vm.sandbox_url(),
            PlatformVM::Windows(vm) => vm.sandbox_url(),
            PlatformVM::Linux(vm) => vm.sandbox_url(),
        }
    }

    fn wait_for_health(&self, timeout_ms: u64) -> (out: HealthProbe)
        ensures
            out.backoff == (self is MacOS),
    {
        match self {
            PlatformVM::MacOS(vm) => vm.wait_for_health(timeout_ms),
            PlatformVM::Windows(vm) => vm.wait_for_health(timeout_ms),
            PlatformVM::Linux(vm) => vm.wait_for_health(timeout_ms),
        }
    }
}

/// The backend of the host `os`, not started: the native hypervisor on
/// macOS, the lightweight-VM subsystem on Windows, the emulator on
/// Linux. Another host has none.
pub fn create_platform_vm(os: HostOs) -> (out: Option<PlatformVM>)
    ensures
        os == HostOs::Other <==> out is None,
        os == HostOs::MacOS ==> out->0 is MacOS,
        os == HostOs::Windows ==> out->0 is Windows,
        os == HostOs::Linux ==> out->0 is Linux,
        out is Some ==> out->0.wf() && out->0.idle() && !out->0.running() && out->0.process()
            is None,
{
    match os {
        HostOs::MacOS => Some(PlatformVM::MacOS(macos::MacOSVM::new())),
        HostOs::Windows => Some(PlatformVM::Windows(windows::WslVM::new())),
        HostOs::Linux => Some(PlatformVM::Linux(linux::QemuVM::new())),
        HostOs::Other => None,
    }
}

} // verus!
