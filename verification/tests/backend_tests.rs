use desktop_supervisor::vm::config::VMConfig;
use desktop_supervisor::vm::error::VMError;
use desktop_supervisor::vm::health::{
    health_address, health_request, health_response_ok, HealthProbe, HealthStep,
};
use desktop_supervisor::vm::linux::{build_liveness_command, QemuPhase, QemuVM};
use desktop_supervisor::vm::macos::MacOSVM;
use desktop_supervisor::vm::windows::WslVM;
use desktop_supervisor::vm::{
    create_platform_vm, HostArch, HostFacts, HostOs, VirtualMachine, VmReply, VmRequest,
};

fn host() -> HostFacts {
    HostFacts {
        arch: HostArch::X86_64,
        image_exists: true,
        qemu_x86_64: true,
        qemu_aarch64: false,
        kvm_available: true,
        virtiofsd_available: false,
        temp_dir: "/tmp".to_string(),
        process_id: 77,
        product_version: Some("14.2.1\n".to_string()),
        helper_exists: true,
        wsl_available: true,
        distro_list: Some("Ubuntu\r\norcabot-sandbox\r\n".to_string()),
        local_app_data: Some("C:\\Users\\me\\AppData\\Local".to_string()),
    }
}

fn config() -> VMConfig {
    VMConfig::new("/data/vm/sandbox.qcow2".to_string(), "/data/workspace".to_string())
        .with_kernel("/data/vm/vmlinuz".to_string())
        .with_initrd("/data/vm/initrd.img".to_string())
        .with_cmdline("console=ttyS0 root=/dev/vda rw quiet")
        .with_port(8181)
}

fn failure(request: VmRequest) -> VMError {
    match request {
        VmRequest::Finish(Err(e)) => e,
        _ => panic!("the start should have failed"),
    }
}

#[test]
fn qemu_command_with_acceleration_and_9p() {
    let vm = QemuVM::new();
    let command = vm.build_qemu_command("qemu-system-x86_64", &config(), true);
    assert_eq!(command.program, "qemu-system-x86_64");
    assert_eq!(
        command.args,
        vec![
            "-enable-kvm",
            "-machine",
            "q35",
            "-cpu",
            "host",
            "-smp",
            "2",
            "-m",
            "2048M",
            "-kernel",
            "/data/vm/vmlinuz",
            "-initrd",
            "/data/vm/initrd.img",
            "-append",
            "console=ttyS0 root=/dev/vda rw quiet",
            "-drive",
            "file=/data/vm/sandbox.qcow2,format=qcow2,if=virtio",
            "-netdev",
            "user,id=net0,hostfwd=tcp::8181-:8181",
            "-device",
            "virtio-net-pci,netdev=net0",
            "-fsdev",
            "local,id=workspace,path=/data/workspace,security_model=mapped-xattr",
            "-device",
            "virtio-9p-pci,fsdev=workspace,mount_tag=workspace",
            "-nographic",
            "-serial",
            "stdio",
        ]
    );
    assert!(command.env.is_empty());
    assert!(!command.quiet);
}

#[test]
fn qemu_command_without_acceleration_and_with_virtiofs() {
    let mut vm = QemuVM::new();
    vm.virtiofs_socket = Some("/tmp/fs.sock".to_string());
    let plain = VMConfig::new("/data/vm/sandbox.img".to_string(), "/w".to_string());
    let command = vm.build_qemu_command("qemu-system-aarch64", &plain, false);
    assert_eq!(
        command.args,
        vec![
            "-machine",
            "virt",
            "-cpu",
            "qemu64",
            "-smp",
            "2",
            "-m",
            "2048M",
            "-drive",
            "file=/data/vm/sandbox.img,format=raw,if=virtio",
            "-netdev",
            "user,id=net0,hostfwd=tcp::8080-:8080",
            "-device",
            "virtio-net-pci,netdev=net0",
            "-chardev",
            "socket,id=char0,path=/tmp/fs.sock",
            "-device",
            "vhost-user-fs-pci,chardev=char0,tag=workspace",
            "-object",
            "memory-backend-memfd,id=mem,size=2G,share=on",
            "-numa",
            "node,memdev=mem",
            "-nographic",
            "-serial",
            "stdio",
        ]
    );
}

#[test]
fn qemu_starts_without_the_daemon() {
    let mut vm = QemuVM::new();
    let request = vm.start(&config(), &host());
    let command = match request {
        VmRequest::Spawn(command) => command,
        _ => panic!("the emulator should be started"),
    };
    assert_eq!(command.program, "qemu-system-x86_64");
    assert_eq!(command.args[0], "-enable-kvm");
    assert!(!vm.running);
    assert_eq!(vm.sandbox_url(), None);
    let request = vm.resume(VmReply::Spawned(4321));
    assert!(matches!(request, VmRequest::Finish(Ok(()))));
    assert!(vm.running);
    assert_eq!(vm.pid(), Some(4321));
    assert_eq!(vm.sandbox_url(), Some("http://127.0.0.1:8181".to_string()));
    assert!(vm.is_running(true));
    assert!(!vm.is_running(false));
    assert_eq!(vm.config.as_ref().unwrap().sandbox_port, 8181);
    assert_eq!(vm.phase, QemuPhase::Idle);
}

#[test]
fn qemu_starts_the_daemon_first_where_it_is_installed() {
    let mut vm = QemuVM::new();
    let mut facts = host();
    facts.virtiofsd_available = true;
    facts.kvm_available = false;
    let request = vm.start(&config(), &facts);
    assert!(matches!(request, VmRequest::RemoveFile(p) if p == "/tmp/orcabot-virtiofs-77.sock"));
    let request = vm.resume(VmReply::Done);
    match request {
        VmRequest::Spawn(command) => {
            assert_eq!(command.program, "virtiofsd");
            assert_eq!(
                command.args,
                vec![
                    "--socket-path=/tmp/orcabot-virtiofs-77.sock",
                    "--shared-dir=/data/workspace",
                    "--cache=auto",
                    "--sandbox=chroot",
                ]
            );
            assert!(command.quiet);
        }
        _ => panic!("the daemon should be started"),
    }
    let request = vm.resume(VmReply::Spawned(900));
    assert!(matches!(request, VmRequest::Wait(500)));
    let request = vm.resume(VmReply::Done);
    match request {
        VmRequest::Spawn(command) => {
            assert!(command.args.contains(&"socket,id=char0,path=/tmp/orcabot-virtiofs-77.sock".to_string()));
            assert_eq!(command.args[3], "qemu64");
        }
        _ => panic!("the emulator should be started"),
    }
    vm.resume(VmReply::Spawned(901));
    let plan = vm.stop();
    assert_eq!(plan.kill, vec![901, 900]);
    assert_eq!(plan.remove, vec!["/tmp/orcabot-virtiofs-77.sock"]);
    assert!(plan.run.is_empty());
}

#[test]
fn qemu_falls_back_to_9p_where_the_daemon_does_not_start() {
    let mut vm = QemuVM::new();
    let mut facts = host();
    facts.virtiofsd_available = true;
    vm.start(&config(), &facts);
    vm.resume(VmReply::Done);
    let request = vm.resume(VmReply::Failed("no such file".to_string()));
    match request {
        VmRequest::Spawn(command) => {
            assert!(command.args.contains(&"virtio-9p-pci,fsdev=workspace,mount_tag=workspace".to_string()));
        }
        _ => panic!("the emulator should be started"),
    }
    let e = failure(vm.resume(VmReply::Failed("exec format error".to_string())));
    assert_eq!(e.message(), "Failed to start VM: Failed to start QEMU: exec format error");
    assert!(!vm.running);
    assert_eq!(vm.pid(), None);
}

#[test]
fn qemu_start_is_refused() {
    let mut vm = QemuVM::new();
    let mut facts = host();
    facts.qemu_x86_64 = false;
    let e = failure(vm.start(&config(), &facts));
    assert!(matches!(&e, VMError::UnsupportedPlatform(m) if m == "QEMU is not installed. Please install qemu-system-x86_64."));
    facts.qemu_aarch64 = true;
    facts.image_exists = false;
    let e = failure(vm.start(&config(), &facts));
    assert!(matches!(&e, VMError::ImageNotFound(p) if p == "/data/vm/sandbox.qcow2"));
    facts.image_exists = true;
    let request = vm.start(&config(), &facts);
    assert!(matches!(request, VmRequest::Spawn(c) if c.program == "qemu-system-aarch64"));
    vm.resume(VmReply::Spawned(5));
    let e = failure(vm.start(&config(), &facts));
    assert!(matches!(&e, VMError::StartFailed(m) if m == "VM is already running"));
    assert!(vm.running);
    assert_eq!(vm.pid(), Some(5));
}

#[test]
fn resume_without_a_start_is_refused() {
    let mut vm = QemuVM::new();
    let e = failure(vm.resume(VmReply::Spawned(1)));
    assert_eq!(e.message(), "Failed to start VM: No start is in progress");
    assert!(!vm.running);
}

#[test]
fn stop_twice_is_a_no_op() {
    for os in [HostOs::MacOS, HostOs::Linux, HostOs::Windows] {
        let mut vm = create_platform_vm(os).unwrap();
        let mut facts = host();
        facts.helper_exists = false;
        let mut request = vm.start(&config(), &facts);
        loop {
            request = match request {
                VmRequest::Finish(outcome) => {
                    assert!(outcome.is_ok());
                    break;
                }
                VmRequest::Spawn(_) => vm.resume(VmReply::Spawned(314)),
                _ => vm.resume(VmReply::Done),
            };
        }
        assert_eq!(vm.pid(), Some(314));
        assert!(vm.sandbox_url().is_some());
        let first = vm.stop();
        assert_eq!(first.kill, vec![314]);
        assert_eq!(vm.pid(), None);
        assert_eq!(vm.sandbox_url(), None);
        assert!(!vm.is_running(true));
        let second = vm.stop();
        assert!(second.kill.is_empty());
        assert!(second.remove.is_empty());
        assert_eq!(vm.pid(), None);
        assert_eq!(vm.sandbox_url(), None);
        let third = vm.stop();
        assert!(third.kill.is_empty());
    }
}

#[test]
fn stop_before_any_start_is_a_no_op() {
    let mut vm = QemuVM::new();
    let plan = vm.stop();
    assert!(plan.kill.is_empty() && plan.remove.is_empty() && plan.run.is_empty());
    let mut vm = MacOSVM::new();
    let plan = vm.stop();
    assert!(plan.kill.is_empty() && plan.remove.is_empty() && plan.run.is_empty());
}

#[test]
fn liveness_is_asked_with_signal_zero() {
    let command = build_liveness_command(4321);
    assert_eq!(command.program, "kill");
    assert_eq!(command.args, vec!["-0", "4321"]);
}

#[test]
fn native_hypervisor_needs_version_13() {
    assert!(MacOSVM::is_vz_available(&Some("13.0".to_string())));
    assert!(MacOSVM::is_vz_available(&Some("14.2.1\n".to_string())));
    assert!(MacOSVM::is_vz_available(&Some(" 15 ".to_string())));
    assert!(!MacOSVM::is_vz_available(&Some("12.7.4".to_string())));
    assert!(!MacOSVM::is_vz_available(&Some("".to_string())));
    assert!(!MacOSVM::is_vz_available(&Some("Sonoma".to_string())));
    assert!(!MacOSVM::is_vz_available(&Some(".13".to_string())));
    assert!(!MacOSVM::is_vz_available(&None));
}

#[test]
fn macos_starts_on_the_native_hypervisor() {
    let mut vm = MacOSVM::new();
    let cfg = config().with_vz_helper("/data/vm/vz-helper".to_string()).with_cpus(4);
    let request = vm.start(&cfg, &host());
    match request {
        VmRequest::Spawn(command) => {
            assert_eq!(command.program, "/data/vm/vz-helper");
            assert_eq!(
                command.args,
                vec![
                    "--kernel",
                    "/data/vm/vmlinuz",
                    "--initrd",
                    "/data/vm/initrd.img",
                    "--disk",
                    "/data/vm/sandbox.qcow2",
                    "--cmdline",
                    "console=ttyS0 root=/dev/vda rw quiet",
                    "--cpus",
                    "4",
                    "--memory",
                    "2048",
                    "--share",
                    "workspace:/data/workspace",
                    "--port-forward",
                    "8181:8181",
                ]
            );
        }
        _ => panic!("the helper should be started"),
    }
    let request = vm.resume(VmReply::Spawned(10));
    assert!(matches!(request, VmRequest::Finish(Ok(()))));
    assert!(vm.using_native_vz);
    assert!(vm.wait_for_health(1000).backoff);
}

#[test]
fn macos_helper_is_looked_for_beside_the_image() {
    assert_eq!(MacOSVM::helper_path(&config()), "/data/vm/vz-helper");
    let cfg = VMConfig::new("sandbox.img".to_string(), "/w".to_string());
    assert_eq!(MacOSVM::helper_path(&cfg), "vz-helper");
    let cfg = config().with_vz_helper("/opt/helper".to_string());
    assert_eq!(MacOSVM::helper_path(&cfg), "/opt/helper");
    let cfg = VMConfig::new("/data/vm/sandbox.img".to_string(), "/w".to_string())
        .with_kernel("/k".to_string())
        .with_initrd("/i".to_string());
    let command = MacOSVM::start_native(&cfg, true).ok().unwrap();
    assert_eq!(command.args[7], "console=hvc0 root=/dev/vda rw");
    let e = MacOSVM::start_native(&cfg, false).err().unwrap();
    assert_eq!(
        e.message(),
        "Failed to start VM: Virtualization.framework helper not found at /data/vm/vz-helper. Falling back to QEMU."
    );
    let bare = VMConfig::new("/data/vm/sandbox.img".to_string(), "/w".to_string());
    let e = MacOSVM::start_native(&bare, true).err().unwrap();
    assert_eq!(e.message(), "Failed to start VM: Kernel path required for VZ");
    let e = MacOSVM::start_native(&bare.with_kernel("/k".to_string()), true).err().unwrap();
    assert_eq!(e.message(), "Failed to start VM: Initrd path required for VZ");
}

#[test]
fn macos_falls_back_to_the_emulator() {
    let mut vm = MacOSVM::new();
    let request = vm.start(&config(), &host());
    assert!(matches!(request, VmRequest::Spawn(_)));
    let request = vm.resume(VmReply::Failed("killed".to_string()));
    match request {
        VmRequest::Spawn(command) => {
            assert_eq!(command.program, "qemu-system-x86_64");
            assert_eq!(&command.args[..4], ["-machine", "q35,accel=hvf", "-cpu", "host"]);
            assert!(command.args.contains(&"file=/data/vm/sandbox.qcow2,format=qcow2,if=virtio".to_string()));
            assert!(command.args.contains(&"virtio-9p-pci,fsdev=workspace,mount_tag=workspace".to_string()));
        }
        _ => panic!("the emulator should be started"),
    }
    let request = vm.resume(VmReply::Spawned(11));
    assert!(matches!(request, VmRequest::Finish(Ok(()))));
    assert!(!vm.using_native_vz);
    assert!(vm.running);
}

#[test]
fn macos_emulator_on_arm() {
    let command = MacOSVM::start_qemu("qemu-system-aarch64", &config(), HostArch::Aarch64);
    assert_eq!(&command.args[..4], ["-machine", "virt,accel=hvf,highmem=on", "-cpu", "host"]);
    let mut facts = host();
    facts.arch = HostArch::Aarch64;
    assert_eq!(MacOSVM::is_qemu_available(&facts), None);
    facts.qemu_aarch64 = true;
    assert_eq!(MacOSVM::is_qemu_available(&facts), Some("qemu-system-aarch64".to_string()));
}

#[test]
fn macos_without_any_backend() {
    let mut vm = MacOSVM::new();
    let mut facts = host();
    facts.product_version = Some("12.6".to_string());
    facts.qemu_x86_64 = false;
    let e = failure(vm.start(&config(), &facts));
    assert!(matches!(&e, VMError::UnsupportedPlatform(m) if m == "No VM backend available. macOS 13+ required for Virtualization.framework."));
    facts.image_exists = false;
    let e = failure(vm.start(&config(), &facts));
    assert!(matches!(&e, VMError::ImageNotFound(_)));
    facts.image_exists = true;
    facts.qemu_x86_64 = true;
    vm.start(&config(), &facts);
    let e = failure(vm.resume(VmReply::Failed("denied".to_string())));
    assert_eq!(e.message(), "Failed to start VM: Failed to start QEMU: denied");
}

#[test]
fn windows_paths_become_guest_paths() {
    assert_eq!(WslVM::windows_to_wsl_path("C:\\foo\\bar"), "/mnt/c/foo/bar");
    assert_eq!(WslVM::windows_to_wsl_path("\\\\?\\D:\\Data\\ws"), "/mnt/d/Data/ws");
    assert_eq!(WslVM::windows_to_wsl_path("e:"), "/mnt/e");
    assert_eq!(WslVM::windows_to_wsl_path("relative\\dir"), "relative/dir");
    assert_eq!(WslVM::windows_to_wsl_path("/already/unix"), "/already/unix");
    assert_eq!(WslVM::windows_to_wsl_path("1:\\x"), "1:/x");
    assert_eq!(WslVM::windows_to_wsl_path(""), "");
}

#[test]
fn distribution_is_found_in_the_list() {
    assert!(WslVM::is_distro_installed(&Some("Ubuntu\norcabot-sandbox\n".to_string())));
    assert!(WslVM::is_distro_installed(&Some("  orcabot-sandbox \r\n".to_string())));
    assert!(!WslVM::is_distro_installed(&Some("Ubuntu\norcabot-sandbox-2\n".to_string())));
    assert!(!WslVM::is_distro_installed(&Some("".to_string())));
    assert!(!WslVM::is_distro_installed(&None));
}

#[test]
fn windows_starts_the_sandbox_in_the_distribution() {
    let mut vm = WslVM::new();
    let cfg = VMConfig::new("C:/data/vm/rootfs.tar".to_string(), "C:\\data\\workspace".to_string())
        .with_port(8282)
        .with_env("TOKEN", "t0k")
        .with_env("ALLOWED_ORIGINS", "http://localhost:8788");
    let request = vm.start(&cfg, &host());
    match request {
        VmRequest::Spawn(command) => {
            assert_eq!(command.program, "wsl");
            assert_eq!(
                command.args,
                vec![
                    "-d",
                    "orcabot-sandbox",
                    "--",
                    "sh",
                    "-c",
                    "export PORT=8282 WORKSPACE_BASE=/mnt/c/data/workspace TOKEN=t0k ALLOWED_ORIGINS=http://localhost:8788 && /usr/local/bin/orcabot-server",
                ]
            );
        }
        _ => panic!("the sandbox should be started"),
    }
    assert!(matches!(vm.resume(VmReply::Spawned(70)), VmRequest::Finish(Ok(()))));
    assert_eq!(vm.sandbox_url(), Some("http://127.0.0.1:8282".to_string()));
    let plan = vm.stop();
    assert_eq!(plan.kill, vec![70]);
    assert_eq!(plan.run.len(), 1);
    assert_eq!(plan.run[0].program, "wsl");
    assert_eq!(plan.run[0].args, vec!["--terminate", "orcabot-sandbox"]);
}

#[test]
fn windows_imports_the_distribution_first() {
    let mut vm = WslVM::new();
    let mut facts = host();
    facts.distro_list = Some("Ubuntu\n".to_string());
    let cfg = VMConfig::new("C:/data/vm/rootfs.tar".to_string(), "C:/ws".to_string());
    let request = vm.start(&cfg, &facts);
    assert!(
        matches!(request, VmRequest::CreateDir(p) if p == "C:\\Users\\me\\AppData\\Local\\OrcabotDesktop\\wsl")
    );
    let request = vm.resume(VmReply::Done);
    match request {
        VmRequest::Run(command) => {
            assert_eq!(
                command.args,
                vec![
                    "--import",
                    "orcabot-sandbox",
                    "C:\\Users\\me\\AppData\\Local\\OrcabotDesktop\\wsl",
                    "C:/data/vm/rootfs.tar",
                    "--version",
                    "2",
                ]
            );
        }
        _ => panic!("the distribution should be imported"),
    }
    let request = vm.resume(VmReply::Ran { success: true, stderr: String::new() });
    assert!(matches!(request, VmRequest::Spawn(_)));
    let e = failure(vm.resume(VmReply::Failed("no wsl".to_string())));
    assert_eq!(e.message(), "Failed to start VM: Failed to start sandbox in WSL: no wsl");
}

#[test]
fn windows_start_fails() {
    let mut vm = WslVM::new();
    let mut facts = host();
    facts.wsl_available = false;
    let e = failure(vm.start(&config(), &facts));
    assert!(matches!(&e, VMError::UnsupportedPlatform(m) if m == "WSL2 is not available. Please install WSL2 first: https://aka.ms/wsl2"));
    facts.wsl_available = true;
    facts.distro_list = None;
    facts.image_exists = false;
    assert!(matches!(failure(vm.start(&config(), &facts)), VMError::ImageNotFound(_)));
    facts.image_exists = true;
    facts.local_app_data = None;
    let e = failure(vm.start(&config(), &facts));
    assert_eq!(e.message(), "Failed to start VM: Could not determine LOCALAPPDATA path");
    facts.local_app_data = Some("C:/L".to_string());
    vm.start(&config(), &facts);
    let denied = std::io::Error::new(std::io::ErrorKind::PermissionDenied, "denied");
    assert!(matches!(failure(vm.resume(VmReply::CreateFailed(denied))), VMError::Io(_)));
    vm.start(&config(), &facts);
    vm.resume(VmReply::Done);
    let e = failure(vm.resume(VmReply::Ran { success: false, stderr: "bad tarball".to_string() }));
    assert_eq!(e.message(), "Failed to start VM: WSL import failed: bad tarball");
    vm.start(&config(), &facts);
    vm.resume(VmReply::Done);
    let e = failure(vm.resume(VmReply::Failed("not found".to_string())));
    assert_eq!(e.message(), "Failed to start VM: Failed to run wsl --import: not found");
}

#[test]
fn windows_process_is_looked_up_in_the_task_list() {
    let command = WslVM::liveness_command(4321);
    assert_eq!(command.program, "tasklist");
    assert_eq!(command.args, vec!["/FI", "PID eq 4321"]);
    assert!(WslVM::process_listed("wsl.exe    4321 Console", 4321));
    assert!(!WslVM::process_listed("INFO: No tasks are running", 4321));
    assert_eq!(WslVM::is_wsl_available().args, vec!["--status"]);
    assert_eq!(WslVM::list_distros().args, vec!["--list", "--quiet"]);
}

#[test]
fn healthy_responses() {
    assert!(health_response_ok("HTTP/1.1 200 OK\r\ncontent-length: 2\r\n\r\n{}"));
    assert!(health_response_ok("{\"status\":\"ok\"}"));
    assert!(health_response_ok("token"));
    assert!(!health_response_ok("HTTP/1.1 503 Service Unavailable"));
    assert!(!health_response_ok("200 Ok"));
    assert!(!health_response_ok(""));
    assert_eq!(health_request(), "GET /health HTTP/1.1\r\nHost: localhost\r\n\r\n");
    assert_eq!(health_address(8080), "127.0.0.1:8080");
}

#[test]
fn vm_health_timeout() {
    let vm = QemuVM::new();
    let mut probe = vm.wait_for_health(100);
    assert_eq!(probe.port, 8080);
    let mut elapsed = 0u64;
    let mut waited = 0u64;
    let error = loop {
        match probe.poll(elapsed) {
            HealthStep::Probe { address } => assert_eq!(address, "127.0.0.1:8080"),
            HealthStep::TimedOut(e) => break e,
            _ => panic!("a poll probes or times out"),
        }
        elapsed += 1;
        match probe.observe(None, elapsed) {
            HealthStep::Wait { millis } => {
                waited += millis;
                elapsed += millis;
            }
            HealthStep::TimedOut(e) => break e,
            _ => panic!("an attempt that fails waits or times out"),
        }
    };
    assert!(matches!(error, VMError::HealthTimeout(100)));
    assert_eq!(error.message(), "VM health check failed after 100ms");
    assert!(elapsed <= 150);
    assert_eq!(waited, 99);
}

#[test]
fn health_check_ends_on_a_healthy_response() {
    let mut probe = HealthProbe::new(8181, 120000, false);
    assert!(matches!(probe.observe(Some("HTTP/1.1 200 OK"), 5), HealthStep::Healthy));
    assert!(matches!(probe.observe(Some("HTTP/1.1 200 OK"), 999999), HealthStep::Healthy));
    assert!(matches!(probe.observe(Some("starting"), 5), HealthStep::Wait { millis: 500 }));
    assert!(matches!(probe.observe(None, 600), HealthStep::Wait { millis: 500 }));
    assert_eq!(probe.delay_ms, 500);
}

#[test]
fn health_check_backs_off_up_to_five_seconds() {
    let mut probe = HealthProbe::new(8080, 120000, true);
    let mut waits = Vec::new();
    for _ in 0..6 {
        match probe.observe(None, 0) {
            HealthStep::Wait { millis } => waits.push(millis),
            _ => panic!("the check should wait"),
        }
    }
    assert_eq!(waits, vec![500, 1000, 2000, 4000, 5000, 5000]);
    assert!(matches!(probe.observe(None, 119000), HealthStep::Wait { millis: 1000 }));
}
