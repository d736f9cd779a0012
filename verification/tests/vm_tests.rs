use desktop_supervisor::vm::config::VMConfig;
use desktop_supervisor::vm::error::VMError;
use desktop_supervisor::vm::image::{
    gzipped, needs_staging, sign_vz_helper, stage_image, stage_vm_resources, staged_path,
    FileMeta, StageAction, VMResourcePaths,
};
use desktop_supervisor::vm::{create_platform_vm, vm_backend_name, HostOs, PlatformVM};

fn meta(modified: u128, len: u64) -> FileMeta {
    FileMeta { modified, len }
}

#[test]
fn config_has_the_defaults() {
    let config = VMConfig::new("/data/vm/sandbox.img".to_string(), "/data/workspace".to_string());
    assert_eq!(config.image_path, "/data/vm/sandbox.img");
    assert_eq!(config.workspace_path, "/data/workspace");
    assert_eq!(config.cpus, 2);
    assert_eq!(config.memory_bytes, 2 * 1024 * 1024 * 1024);
    assert_eq!(config.sandbox_port, 8080);
    assert!(config.env.is_empty());
    assert_eq!(config.kernel_path, None);
    assert_eq!(config.initrd_path, None);
    assert_eq!(config.kernel_cmdline, None);
    assert_eq!(config.vz_helper_path, None);
    assert_eq!(config.memory_mb(), 2048);
    let default = VMConfig::default();
    assert_eq!(default.image_path, "");
    assert_eq!(default.cpus, 2);
    assert_eq!(default.sandbox_port, 8080);
}

#[test]
fn config_setters_chain() {
    let config = VMConfig::new("/i".to_string(), "/w".to_string())
        .with_cpus(4)
        .with_memory(3 * 1024 * 1024 * 1024 + 5)
        .with_port(9090)
        .with_kernel("/k".to_string())
        .with_initrd("/r".to_string())
        .with_cmdline("console=ttyS0")
        .with_vz_helper("/h".to_string());
    assert_eq!(config.cpus, 4);
    assert_eq!(config.memory_mb(), 3072);
    assert_eq!(config.sandbox_port, 9090);
    assert_eq!(config.kernel_path, Some("/k".to_string()));
    assert_eq!(config.initrd_path, Some("/r".to_string()));
    assert_eq!(config.kernel_cmdline, Some("console=ttyS0".to_string()));
    assert_eq!(config.vz_helper_path, Some("/h".to_string()));
    assert_eq!(config.image_path, "/i");
    let copy = config.clone();
    assert_eq!(copy.kernel_path, config.kernel_path);
    assert_eq!(copy.cpus, 4);
}

#[test]
fn config_env_holds_each_variable_once() {
    let config = VMConfig::new("/i".to_string(), "/w".to_string())
        .with_env("PORT", "8080")
        .with_env("TOKEN", "a")
        .with_env("PORT", "9090")
        .with_env("ZED", "z");
    let expected = vec![
        ("PORT".to_string(), "9090".to_string()),
        ("TOKEN".to_string(), "a".to_string()),
        ("ZED".to_string(), "z".to_string()),
    ];
    assert_eq!(config.env, expected);
    assert_eq!(config.duplicate().env, expected);
}

#[test]
fn errors_in_words() {
    assert_eq!(
        VMError::ImageNotFound("/vm/sandbox.img".to_string()).message(),
        "VM image not found: /vm/sandbox.img"
    );
    assert_eq!(VMError::StartFailed("boom".to_string()).message(), "Failed to start VM: boom");
    assert_eq!(VMError::StopFailed("boom".to_string()).message(), "Failed to stop VM: boom");
    assert_eq!(VMError::HealthTimeout(100).message(), "VM health check failed after 100ms");
    assert_eq!(VMError::HealthTimeout(120000).message(), "VM health check failed after 120s");
    assert_eq!(
        VMError::MountFailed("no daemon".to_string()).message(),
        "Shared filesystem mount failed: no daemon"
    );
    assert_eq!(
        VMError::UnsupportedPlatform("plan9".to_string()).message(),
        "Platform not supported: plan9"
    );
    let io = std::io::Error::new(std::io::ErrorKind::NotFound, "missing thing");
    let text = io.to_string();
    let e = VMError::from(io);
    assert!(matches!(e, VMError::Io(_)));
    assert_eq!(e.message(), format!("IO error: {}", text));
}

#[test]
fn backend_names() {
    assert_eq!(vm_backend_name(HostOs::MacOS), "Virtualization.framework");
    assert_eq!(vm_backend_name(HostOs::Windows), "WSL2");
    assert_eq!(vm_backend_name(HostOs::Linux), "QEMU/KVM");
    assert_eq!(vm_backend_name(HostOs::Other), "unsupported");
}

#[test]
fn each_host_has_its_backend() {
    assert!(matches!(create_platform_vm(HostOs::MacOS), Some(PlatformVM::MacOS(_))));
    assert!(matches!(create_platform_vm(HostOs::Windows), Some(PlatformVM::Windows(_))));
    assert!(matches!(create_platform_vm(HostOs::Linux), Some(PlatformVM::Linux(_))));
    assert!(create_platform_vm(HostOs::Other).is_none());
}

#[test]
fn resource_paths_by_host() {
    let mac = VMResourcePaths::from_resource_root("/res", HostOs::MacOS, false);
    assert_eq!(mac.image, "/res/vm/sandbox.img");
    assert_eq!(mac.kernel, Some("/res/vm/vmlinuz".to_string()));
    assert_eq!(mac.initrd, Some("/res/vm/initrd.img".to_string()));
    assert_eq!(mac.vz_helper, Some("/res/vm/vz-helper".to_string()));
    let win = VMResourcePaths::from_resource_root("C:\\res", HostOs::Windows, true);
    assert_eq!(win.image, "C:\\res\\vm\\sandbox-rootfs.tar.gz");
    assert_eq!((win.kernel, win.initrd, win.vz_helper), (None, None, None));
    let linux = VMResourcePaths::from_resource_root("/res/", HostOs::Linux, true);
    assert_eq!(linux.image, "/res/vm/sandbox.qcow2");
    assert_eq!(linux.kernel, Some("/res/vm/vmlinuz".to_string()));
    assert_eq!(linux.vz_helper, None);
    let linux = VMResourcePaths::from_resource_root("/res", HostOs::Linux, false);
    assert_eq!(linux.image, "/res/vm/sandbox.img");
    assert_eq!(VMResourcePaths::qcow2_candidate("/res"), "/res/vm/sandbox.qcow2");
    let other = VMResourcePaths::from_resource_root("/res", HostOs::Other, true);
    assert_eq!(other.image, "/res/vm/sandbox.img");
    assert_eq!(other.kernel, None);
}

#[test]
fn test_needs_staging_missing_dest() {
    assert!(needs_staging("/tmp/test.img", meta(10, 4), None, HostOs::Linux));
}

#[test]
fn staging_is_needed_for_newer_or_resized_sources() {
    assert!(needs_staging("/r/test.img", meta(11, 4), Some(meta(10, 4)), HostOs::Linux));
    assert!(needs_staging("/r/test.img", meta(10, 5), Some(meta(10, 4)), HostOs::Linux));
    assert!(needs_staging("/r/test.img", meta(9, 5), Some(meta(10, 4)), HostOs::Linux));
    assert!(!needs_staging("/r/test.img", meta(10, 4), Some(meta(10, 4)), HostOs::Linux));
    assert!(!needs_staging("/r/test.img", meta(9, 4), Some(meta(10, 4)), HostOs::Linux));
    assert!(needs_staging("/r/test.img.gz", meta(11, 4), Some(meta(10, 400)), HostOs::Linux));
    assert!(!needs_staging("/r/test.img.gz", meta(10, 4), Some(meta(10, 400)), HostOs::Linux));
}

#[test]
fn staged_name_drops_the_gzip_extension() {
    assert!(gzipped("/r/vm/sandbox-rootfs.tar.gz", HostOs::Linux));
    assert!(!gzipped("/r/vm/sandbox.img", HostOs::Linux));
    assert!(!gzipped("/r/vm/gz", HostOs::Linux));
    assert!(!gzipped("/r/vm/.gz", HostOs::Linux));
    assert_eq!(staged_path("/r/vm/sandbox-rootfs.tar.gz", "/d/vm", HostOs::Linux), "/d/vm/sandbox-rootfs.tar");
    assert_eq!(staged_path("/r/vm/sandbox.img", "/d/vm", HostOs::Linux), "/d/vm/sandbox.img");
    assert_eq!(staged_path("/", "/d/vm", HostOs::Linux), "/d/vm/");
}

#[test]
fn stage_image_decides_the_action() {
    let plan = stage_image("/r/vm/sandbox.img", "/d/vm", Ok(meta(5, 100)), None, HostOs::Linux).ok().unwrap();
    assert_eq!(plan.dest_path, "/d/vm/sandbox.img");
    assert_eq!(plan.action, StageAction::Copy);
    let plan =
        stage_image("/r/vm/rootfs.tar.gz", "/d/vm", Ok(meta(5, 100)), None, HostOs::Linux).ok().unwrap();
    assert_eq!(plan.dest_path, "/d/vm/rootfs.tar");
    assert_eq!(plan.action, StageAction::Decompress);
    let gone = std::io::Error::new(std::io::ErrorKind::NotFound, "gone");
    let e = stage_image("/r/vm/sandbox.img", "/d/vm", Err(gone), None, HostOs::Linux).err().unwrap();
    assert!(matches!(e, VMError::Io(err) if err.kind() == std::io::ErrorKind::NotFound));
}

#[test]
fn staging_twice_writes_once() {
    let source = meta(1700000000, 4096);
    let first = stage_image("/r/vm/sandbox.img", "/d/vm", Ok(source), None, HostOs::Linux).ok().unwrap();
    assert_eq!(first.action, StageAction::Copy);
    let second =
        stage_image("/r/vm/sandbox.img", "/d/vm", Ok(source), Some(source), HostOs::Linux).ok().unwrap();
    assert_eq!(second.action, StageAction::Skip);
    let unpacked = meta(1700000500, 99999);
    let again =
        stage_image("/r/vm/rootfs.tar.gz", "/d/vm", Ok(source), Some(unpacked), HostOs::Linux).ok().unwrap();
    assert_eq!(again.action, StageAction::Skip);
}

#[test]
fn resources_are_staged_in_order() {
    let paths = VMResourcePaths::from_resource_root("/res", HostOs::MacOS, false);
    let plan = stage_vm_resources(&paths, "/data", true, HostOs::MacOS);
    assert_eq!(plan.vm_dir, "/data/vm");
    let sources: Vec<&str> = plan.items.iter().map(|i| i.source.as_str()).collect();
    assert_eq!(
        sources,
        vec!["/res/vm/sandbox.img", "/res/vm/vmlinuz", "/res/vm/initrd.img", "/res/vm/vz-helper"]
    );
    let dests: Vec<&str> = plan.items.iter().map(|i| i.dest_path.as_str()).collect();
    assert_eq!(
        dests,
        vec!["/data/vm/sandbox.img", "/data/vm/vmlinuz", "/data/vm/initrd.img", "/data/vm/vz-helper"]
    );
    assert!(plan.items[3].make_executable && plan.items[3].sign);
    assert!(!plan.items[0].make_executable && !plan.items[0].sign);
    assert_eq!(plan.staged.image, "/data/vm/sandbox.img");
    assert_eq!(plan.staged.vz_helper, Some("/data/vm/vz-helper".to_string()));
    let plan = stage_vm_resources(&paths, "/data", false, HostOs::MacOS);
    assert_eq!(plan.items.len(), 3);
    assert_eq!(plan.staged.vz_helper, None);
    assert_eq!(plan.staged.kernel, Some("/data/vm/vmlinuz".to_string()));
}

#[test]
fn compressed_root_file_system_is_staged_without_its_extension() {
    let paths = VMResourcePaths::from_resource_root("C:\\res", HostOs::Windows, false);
    let plan = stage_vm_resources(&paths, "C:\\data", false, HostOs::Windows);
    assert_eq!(plan.vm_dir, "C:\\data\\vm");
    assert_eq!(plan.items[0].source, "C:\\res\\vm\\sandbox-rootfs.tar.gz");
    assert_eq!(plan.items.len(), 1);
    assert_eq!(plan.staged.image, "C:\\data\\vm\\sandbox-rootfs.tar");
}

#[test]
fn helper_is_signed_only_on_macos() {
    let paths = VMResourcePaths {
        image: "/res/vm/sandbox.img".to_string(),
        kernel: None,
        initrd: None,
        vz_helper: Some("/res/vm/vz-helper".to_string()),
    };
    let plan = stage_vm_resources(&paths, "/data", true, HostOs::Linux);
    assert!(plan.items[1].make_executable);
    assert!(!plan.items[1].sign);
    let plan = stage_vm_resources(&paths, "/data", true, HostOs::Windows);
    assert!(!plan.items[1].make_executable);
}

#[test]
fn signing_plan_names_the_entitlement() {
    let plan = sign_vz_helper("/data/vm/vz-helper");
    assert_eq!(plan.entitlements_path, "/data/vm/vz-helper.entitlements");
    assert!(plan.entitlements.contains("<key>com.apple.security.virtualization</key>"));
    assert!(plan.entitlements.starts_with("<?xml version=\"1.0\" encoding=\"UTF-8\"?>\n"));
    assert!(plan.entitlements.ends_with("</plist>"));
    assert_eq!(plan.command.program, "codesign");
    assert_eq!(
        plan.command.args,
        vec![
            "--force",
            "--sign",
            "-",
            "--entitlements",
            "/data/vm/vz-helper.entitlements",
            "/data/vm/vz-helper"
        ]
    );
    assert_eq!(sign_vz_helper("vz-helper").entitlements_path, "vz-helper.entitlements");
}

#[test]
fn staging_reads_the_paths_of_a_windows_host() {
    let os = HostOs::Windows;
    assert!(gzipped("C:\\res\\vm\\sandbox-rootfs.tar.gz", os));
    assert!(!gzipped("C:\\res\\vm.gz\\sandbox.img", os));
    assert_eq!(
        staged_path("C:\\res\\vm\\sandbox-rootfs.tar.gz", "C:\\data\\vm", os),
        "C:\\data\\vm\\sandbox-rootfs.tar"
    );
    let plan = stage_image("C:\\res\\vm\\sandbox.img", "C:\\data\\vm", Ok(meta(5, 1)), None, os)
        .ok()
        .unwrap();
    assert_eq!(plan.dest_path, "C:\\data\\vm\\sandbox.img");
    assert_eq!(plan.action, StageAction::Copy);
}
