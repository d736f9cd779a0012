//! The arguments of the emulator that the backends share. The emulator
//! runs on Linux and macOS, whose paths are in slash form as they are.

use vstd::prelude::*;
use crate::path::{slash_extension, extension_spec};
use crate::text::{
    append_texts, concat2, concat3, concat4, concat5, decimal, decimal_string, no_texts, push_text,
    texts,
};
use crate::vm::config::{VMConfig, VMConfigView};

verus! {

/// The arguments for processors and memory: the number of virtual
/// CPUs, and the memory in mebibytes.
pub open spec fn size_args(config: VMConfigView) -> Seq<Seq<char>> {
    seq![
        "-smp"@,
        decimal(config.cpus as nat),
        "-m"@,
        decimal((config.memory_bytes / 1048576) as nat) + "M"@,
    ]
}

/// The arguments of one option with its value, where the value is there.
pub open spec fn optional_args(flag: Seq<char>, value: Option<Seq<char>>) -> Seq<Seq<char>> {
    match value {
        Some(v) => seq![flag, v],
        None => Seq::empty(),
    }
}

/// The arguments for a direct kernel boot: kernel, initial RAM disk and
/// command line, as far as the configuration holds them.
pub open spec fn boot_args(config: VMConfigView) -> Seq<Seq<char>> {
    optional_args("-kernel"@, config.kernel_path) + optional_args("-initrd"@, config.initrd_path)
        + optional_args("-append"@, config.kernel_cmdline)
}

/// The format of the image at `image`, by its extension.
pub open spec fn image_format(image: Seq<char>) -> Seq<char> {
    if extension_spec(image) == Some("qcow2"@) {
        "qcow2"@
    } else {
        "raw"@
    }
}

/// The arguments for the root disk, a virtio block device on the
/// image, in the format that its extension tells.
pub open spec fn drive_args(image: Seq<char>) -> Seq<Seq<char>> {
    seq!["-drive"@, "file="@ + image + ",format="@ + image_format(image) + ",if=virtio"@]
}

/// The machine that the emulator `binary` emulates: `virt` for the one
/// of aarch64, else `q35`.
pub open spec fn machine_of(binary: Seq<char>) -> Seq<char> {
    if binary == "qemu-system-aarch64"@ {
        "virt"@
    } else {
        "q35"@
    }
}

/// The machine that the emulator `binary` emulates.
pub fn machine_name(binary: &str) -> (out: &'static str)
    ensures
        out@ == machine_of(binary@),
{
    let given = binary.to_owned();
    let arm = "qemu-system-aarch64".to_owned();
    if given == arm {
        "virt"
    } else {
        "q35"
    }
}

/// The arguments for the network: user-mode networking that forwards
/// the TCP port `port` of the host to the same port of the guest.
pub open spec fn net_args(port: u16) -> Seq<Seq<char>> {
    seq![
        "-netdev"@,
        "user,id=net0,hostfwd=tcp::"@ + decimal(port as nat) + "-:"@ + decimal(port as nat),
        "-device"@,
        "virtio-net-pci,netdev=net0"@,
    ]
}

/// The arguments that share the workspace over 9p.
pub open spec fn ninep_args(workspace: Seq<char>) -> Seq<Seq<char>> {
    seq![
        "-fsdev"@,
        "local,id=workspace,path="@ + workspace + ",security_model=mapped-xattr"@,
        "-device"@,
        "virtio-9p-pci,fsdev=workspace,mount_tag=workspace"@,
    ]
}

/// The arguments that share the workspace through the virtio-fs daemon
/// that listens on `socket`, with the shared memory that it needs.
pub open spec fn virtiofs_args(socket: Seq<char>) -> Seq<Seq<char>> {
    seq![
        "-chardev"@,
        "socket,id=char0,path="@ + socket,
        "-device"@,
        "vhost-user-fs-pci,chardev=char0,tag=workspace"@,
        "-object"@,
        "memory-backend-memfd,id=mem,size=2G,share=on"@,
        "-numa"@,
        "node,memdev=mem"@,
    ]
}

/// The arguments for the console: no graphics, the serial line on the
/// standard streams.
pub open spec fn console_args() -> Seq<Seq<char>> {
    seq!["-nographic"@, "-serial"@, "stdio"@]
}

/// Builds the arguments for processors and memory.
pub fn build_size_args(config: &VMConfig) -> (out: Vec<String>)
    ensures
        texts(out@) == size_args(config@),
{
    let mut out = no_texts();
    push_text(&mut out, "-smp");
    let cpus = decimal_string(config.cpus as u64);
    push_text(&mut out, cpus.as_str());
    push_text(&mut out, "-m");
    let mb = decimal_string(config.memory_mb());
    let mem = concat2(mb.as_str(), "M");
    push_text(&mut out, mem.as_str());
    assert(texts(out@) =~= size_args(config@));
    out
}

/// Builds the arguments of one option with its value.
pub fn build_optional_args(flag: &str, value: &Option<String>) -> (out: Vec<String>)
    ensures
        texts(out@) == optional_args(flag@, crate::text::opt_text(*value)),
{
    let mut out = no_texts();
    match value {
        Some(v) => {
            push_text(&mut out, flag);
            push_text(&mut out, v.as_str());
            assert(texts(out@) =~= seq![flag@, v@]);
        },
        None => {},
    }
    out
}

/// Builds the arguments for a direct kernel boot.
pub fn build_boot_args(config: &VMConfig) -> (out: Vec<String>)
    ensures
        texts(out@) == boot_args(config@),
{
    let mut out = build_optional_args("-kernel", &config.kernel_path);
    append_texts(&mut out, build_optional_args("-initrd", &config.initrd_path));
    append_texts(&mut out, build_optional_args("-append", &config.kernel_cmdline));
    out
}

/// Builds the arguments for the root disk.
pub fn build_drive_args(image: &str) -> (out: Vec<String>)
    ensures
        texts(out@) == drive_args(image@),
{
    let format = match slash_extension(image) {
        Some(ext) => {
            let q = "qcow2".to_owned();
            if ext == q {
                "qcow2"
            } else {
                "raw"
            }
        },
        None => "raw",
    };
    let mut out = no_texts();
    push_text(&mut out, "-drive");
    let drive = concat5("file=", image, ",format=", format, ",if=virtio");
    push_text(&mut out, drive.as_str());
    assert(texts(out@) =~= drive_args(image@));
    out
}

/// Builds the arguments for the network.
pub fn build_net_args(port: u16) -> (out: Vec<String>)
    ensures
        texts(out@) == net_args(port),
{
    let mut out = no_texts();
    push_text(&mut out, "-netdev");
    let p = decimal_string(port as u64);
    let netdev = concat4("user,id=net0,hostfwd=tcp::", p.as_str(), "-:", p.as_str());
    push_text(&mut out, netdev.as_str());
    push_text(&mut out, "-device");
    push_text(&mut out, "virtio-net-pci,netdev=net0");
    assert(texts(out@) =~= net_args(port));
    out
}

/// Builds the arguments that share the workspace over 9p.
pub fn build_ninep_args(workspace: &str) -> (out: Vec<String>)
    ensures
        texts(out@) == ninep_args(workspace@),
{
    let mut out = no_texts();
    push_text(&mut out, "-fsdev");
    let fsdev = concat3("local,id=workspace,path=", workspace, ",security_model=mapped-xattr");
    push_text(&mut out, fsdev.as_str());
    push_text(&mut out, "-device");
    push_text(&mut out, "virtio-9p-pci,fsdev=workspace,mount_tag=workspace");
    assert(texts(out@) =~= ninep_args(workspace@));
    out
}

/// Builds the arguments that share the workspace through virtio-fs.
pub fn build_virtiofs_args(socket: &str) -> (out: Vec<String>)
    ensures
        texts(out@) == virtiofs_args(socket@),
{
    let mut out = no_texts();
    push_text(&mut out, "-chardev");
    let chardev = concat2("socket,id=char0,path=", socket);
    push_text(&mut out, chardev.as_str());
    push_text(&mut out, "-device");
    push_text(&mut out, "vhost-user-fs-pci,chardev=char0,tag=workspace");
    push_text(&mut out, "-object");
    push_text(&mut out, "memory-backend-memfd,id=mem,size=2G,share=on");
    push_text(&mut out, "-numa");
    push_text(&mut out, "node,memdev=mem");
    assert(texts(out@) =~= virtiofs_args(socket@));
    out
}

/// Builds the arguments for the console.
pub fn build_console_args() -> (out: Vec<String>)
    ensures
        texts(out@) == console_args(),
{
    let mut out = no_texts();
    push_text(&mut out, "-nographic");
    push_text(&mut out, "-serial");
    push_text(&mut out, "stdio");
    assert(texts(out@) =~= console_args());
    out
}

} // verus!
