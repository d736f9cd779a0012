//! Staging of the artifacts of a virtual machine: which files go where,
//! and whether a file that is already there can stay.

use vstd::prelude::*;
use crate::command::{plain_command, CommandSpec, CommandView};
use crate::path::{
    extension, extension_spec, file_name, file_name_spec, file_stem, file_stem_spec, host_form,
    join_on, join_on_spec, join_paths, join_spec, parent_spec, posix_form, slash_parent_dir,
    to_host, to_posix,
};
use crate::text::{no_texts, opt_text, push_text, texts};
use crate::vm::error::VMError;
use crate::vm::HostOs;

verus! {

/// What the file system knows of a file: when it was last changed, in
/// nanoseconds since the epoch, and how long it is.
#[derive(Clone, Copy, PartialEq, Eq, Debug)]
pub struct FileMeta {
    pub modified: u128,
    pub len: u64,
}

/// Where the artifacts of a virtual machine are.
pub struct VMResourcePaths {
    /// The main image.
    pub image: String,
    pub kernel: Option<String>,
    pub initrd: Option<String>,
    /// The helper that drives the native hypervisor.
    pub vz_helper: Option<String>,
}

/// A `VMResourcePaths` as a plain value.
pub struct ResourcePathsView {
    pub image: Seq<char>,
    pub kernel: Option<Seq<char>>,
    pub initrd: Option<Seq<char>>,
    pub vz_helper: Option<Seq<char>>,
}

impl View for VMResourcePaths {
    type V = ResourcePathsView;

    open spec fn view(&self) -> ResourcePathsView {
        ResourcePathsView {
            image: self.image@,
            kernel: opt_text(self.kernel),
            initrd: opt_text(self.initrd),
            vz_helper: opt_text(self.vz_helper),
        }
    }
}

/// The artifacts that the host `os` needs, below the resource root
/// `root`: image, kernel, initial RAM disk and helper on macOS; a
/// compressed root file system on Windows; on Linux kernel, initial RAM
/// disk and an image, in qcow2 format where that one exists.
pub open spec fn resource_paths(root: Seq<char>, os: HostOs, qcow2_exists: bool) -> ResourcePathsView {
    match os {
        HostOs::MacOS => ResourcePathsView {
            image: join_on_spec(root, "vm/sandbox.img"@, os),
            kernel: Some(join_on_spec(root, "vm/vmlinuz"@, os)),
            initrd: Some(join_on_spec(root, "vm/initrd.img"@, os)),
            vz_helper: Some(join_on_spec(root, "vm/vz-helper"@, os)),
        },
        HostOs::Windows => ResourcePathsView {
            image: join_on_spec(root, "vm/sandbox-rootfs.tar.gz"@, os),
            kernel: None,
            initrd: None,
            vz_helper: None,
        },
        HostOs::Linux => ResourcePathsView {
            image: if qcow2_exists {
                join_on_spec(root, "vm/sandbox.qcow2"@, os)
            } else {
                join_on_spec(root, "vm/sandbox.img"@, os)
            },
            kernel: Some(join_on_spec(root, "vm/vmlinuz"@, os)),
            initrd: Some(join_on_spec(root, "vm/initrd.img"@, os)),
            vz_helper: None,
        },
        HostOs::Other => ResourcePathsView {
            image: join_on_spec(root, "vm/sandbox.img"@, os),
            kernel: None,
            initrd: None,
            vz_helper: None,
        },
    }
}

impl VMResourcePaths {
    /// Where the qcow2 image of a Linux host would be below `root`.
    pub fn qcow2_candidate(root: &str) -> (out: String)
        ensures
            out@ == join_spec(root@, "vm/sandbox.qcow2"@),
    {
        join_paths(root, "vm/sandbox.qcow2")
    }

    /// The artifacts of the host `os` below the resource root `root`.
    /// `qcow2_exists` says whether the qcow2 image was found.
    pub fn from_resource_root(root: &str, os: HostOs, qcow2_exists: bool) -> (out: Self)
        ensures
            out@ == resource_paths(root@, os, qcow2_exists),
    {
        match os {
            HostOs::MacOS => VMResourcePaths {
                image: join_on(root, "vm/sandbox.img", os),
                kernel: Some(join_on(root, "vm/vmlinuz", os)),
                initrd: Some(join_on(root, "vm/initrd.img", os)),
                vz_helper: Some(join_on(root, "vm/vz-helper", os)),
            },
            HostOs::Windows => VMResourcePaths {
                image: join_on(root, "vm/sandbox-rootfs.tar.gz", os),
                kernel: None,
                initrd: None,
                vz_helper: None,
            },
            HostOs::Linux => VMResourcePaths {
                image: if qcow2_exists {
                    join_on(root, "vm/sandbox.qcow2", os)
                } else {
                    join_on(root, "vm/sandbox.img", os)
                },
                kernel: Some(join_on(root, "vm/vmlinuz", os)),
                initrd: Some(join_on(root, "vm/initrd.img", os)),
                vz_helper: None,
            },
            HostOs::Other => VMResourcePaths {
                image: join_on(root, "vm/sandbox.img", os),
                kernel: None,
                initrd: None,
                vz_helper: None,
            },
        }
    }
}

/// Whether the file at `src`, a path in slash form, is compressed with
/// gzip, by its extension.
pub open spec fn is_gzipped(src: Seq<char>) -> bool {
    extension_spec(src) == Some("gz"@)
}

/// The name under which `src`, a path in slash form, is staged: its
/// file name, without the extension where it is compressed.
pub open spec fn staged_name(src: Seq<char>) -> Seq<char> {
    if is_gzipped(src) {
        match file_stem_spec(src) {
            Some(stem) => stem,
            None => Seq::empty(),
        }
    } else {
        match file_name_spec(src) {
            Some(name) => name,
            None => Seq::empty(),
        }
    }
}

/// Where the artifact `src` is staged below the directory `dest` of
/// the host `os`, as the host writes it.
pub open spec fn staged_path_spec(src: Seq<char>, dest: Seq<char>, os: HostOs) -> Seq<char> {
    host_form(join_spec(posix_form(dest, os), staged_name(posix_form(src, os))), os)
}

/// Whether `src` must be staged again: there is no staged file, the
/// source is newer than it, or, for a source that is not compressed,
/// the two differ in length.
pub open spec fn needs_staging_spec(gzipped: bool, src: FileMeta, dest: Option<FileMeta>) -> bool {
    match dest {
        None => true,
        Some(d) => src.modified > d.modified || (!gzipped && src.len != d.len),
    }
}

/// Whether the file at `src` on the host `os` is compressed with gzip.
pub fn gzipped(src: &str, os: HostOs) -> (out: bool)
    ensures
        out == is_gzipped(posix_form(src@, os)),
{
    match extension(src, os) {
        None => false,
        Some(ext) => {
            let gz = "gz".to_owned();
            ext == gz
        },
    }
}

/// Where `src` is staged below the directory `dest` of the host `os`.
pub fn staged_path(src: &str, dest: &str, os: HostOs) -> (out: String)
    ensures
        out@ == staged_path_spec(src@, dest@, os),
{
    let name = if gzipped(src, os) {
        file_stem(src, os)
    } else {
        file_name(src, os)
    };
    let base = to_posix(dest, os);
    let placed = match name {
        Some(n) => join_paths(base.as_str(), n.as_str()),
        None => {
            proof {
                reveal_strlit("");
                assert(""@ =~= Seq::<char>::empty());
            }
            join_paths(base.as_str(), "")
        },
    };
    to_host(placed.as_str(), os)
}

/// Whether `src`, of which the file system says `src_meta`, must be
/// staged again over a staged file of which it says `dest_meta`.
pub fn needs_staging(src: &str, src_meta: FileMeta, dest_meta: Option<FileMeta>, os: HostOs) -> (out:
    bool)
    ensures
        out == needs_staging_spec(is_gzipped(posix_form(src@, os)), src_meta, dest_meta),
{
    match dest_meta {
        None => true,
        Some(d) => {
            if src_meta.modified > d.modified {
                true
            } else {
                !gzipped(src, os) && src_meta.len != d.len
            }
        },
    }
}

/// What is to be done to stage a file.
#[derive(Clone, Copy, PartialEq, Eq, Debug)]
pub enum StageAction {
    /// The staged file is up to date; nothing is written.
    Skip,
    /// The source is decompressed into the staged file.
    Decompress,
    /// The source is copied, and the copy gets its modification time.
    Copy,
}

/// How a file is staged: where, and by what action.
pub struct StagePlan {
    pub dest_path: String,
    pub action: StageAction,
}

/// The action that stages a source.
pub open spec fn stage_action(gzipped: bool, src: FileMeta, dest: Option<FileMeta>) -> StageAction {
    if !needs_staging_spec(gzipped, src, dest) {
        StageAction::Skip
    } else if gzipped {
        StageAction::Decompress
    } else {
        StageAction::Copy
    }
}

/// Decides how the artifact `src` is staged into the directory `dest`.
///
/// `src_meta` is what reading the metadata of `src` returned, and
/// `dest_meta` that of the staged file, where there is one. The staging
/// fails exactly where the source cannot be read, with that error.
pub fn stage_image(
    src: &str,
    dest: &str,
    src_meta: Result<FileMeta, std::io::Error>,
    dest_meta: Option<FileMeta>,
    os: HostOs,
) -> (out: Result<StagePlan, VMError>)
    ensures
        out is Err == src_meta is Err,
        out is Err ==> out->Err_0 == VMError::Io(src_meta->Err_0),
        out is Ok ==> ({
            &&& out->Ok_0.dest_path@ == staged_path_spec(src@, dest@, os)
            &&& out->Ok_0.action == stage_action(
                is_gzipped(posix_form(src@, os)),
                src_meta->Ok_0,
                dest_meta,
            )
        }),
{
    let meta = match src_meta {
        Err(e) => {
            return Err(VMError::Io(e));
        },
        Ok(meta) => meta,
    };
    let dest_path = staged_path(src, dest, os);
    let action = if !needs_staging(src, meta, dest_meta, os) {
        StageAction::Skip
    } else if gzipped(src, os) {
        StageAction::Decompress
    } else {
        StageAction::Copy
    };
    Ok(StagePlan { dest_path, action })
}

/// A staged file that is no older than its source, and as long where
/// the source is not compressed, is left as it is. So staging the same
/// source twice writes once: a copy carries the time and the length of
/// its source, and a decompressed file is written after its source was.
pub proof fn law_staging_is_idempotent(gzipped: bool, src: FileMeta, staged: FileMeta)
    ensures
        staged.modified >= src.modified && (gzipped || staged.len == src.len) ==> stage_action(
            gzipped,
            src,
            Some(staged),
        ) == StageAction::Skip,
        !gzipped ==> stage_action(gzipped, src, Some(src)) == StageAction::Skip,
{
}

/// One artifact to stage.
pub struct StageItem {
    pub source: String,
    /// Where the artifact is staged.
    pub dest_path: String,
    /// Whether the staged file is made executable.
    pub make_executable: bool,
    /// Whether the staged file is signed for the hypervisor.
    pub sign: bool,
}

/// A `StageItem` as a plain value.
pub struct StageItemView {
    pub source: Seq<char>,
    pub dest_path: Seq<char>,
    pub make_executable: bool,
    pub sign: bool,
}

impl View for StageItem {
    type V = StageItemView;

    open spec fn view(&self) -> StageItemView {
        StageItemView {
            source: self.source@,
            dest_path: self.dest_path@,
            make_executable: self.make_executable,
            sign: self.sign,
        }
    }
}

/// The views of the items in `v`.
pub open spec fn items_view(v: Seq<StageItem>) -> Seq<StageItemView> {
    Seq::new(v.len(), |i: int| v[i]@)
}

/// How the artifacts of a virtual machine are staged.
pub struct ResourcePlan {
    /// The directory to create, into which everything is staged.
    pub vm_dir: String,
    /// The artifacts to stage, in this order.
    pub items: Vec<StageItem>,
    /// Where the artifacts are once they are staged.
    pub staged: VMResourcePaths,
}

/// A `ResourcePlan` as a plain value.
pub struct ResourcePlanView {
    pub vm_dir: Seq<char>,
    pub items: Seq<StageItemView>,
    pub staged: ResourcePathsView,
}

impl View for ResourcePlan {
    type V = ResourcePlanView;

    open spec fn view(&self) -> ResourcePlanView {
        ResourcePlanView {
            vm_dir: self.vm_dir@,
            items: items_view(self.items@),
            staged: self.staged@,
        }
    }
}

/// How the artifacts `paths` are staged below `data_dir` on the host
/// `os`.
pub open spec fn resource_plan(
    paths: ResourcePathsView,
    data_dir: Seq<char>,
    helper_exists: bool,
    os: HostOs,
) -> ResourcePlanView {
    ResourcePlanView {
        vm_dir: join_on_spec(data_dir, "vm"@, os),
        items: resource_items(paths, data_dir, helper_exists, os),
        staged: staged_paths(paths, data_dir, helper_exists, os),
    }
}

/// The item that stages `src` into `vm_dir` as data.
pub open spec fn data_item(src: Seq<char>, vm_dir: Seq<char>, os: HostOs) -> StageItemView {
    StageItemView {
        source: src,
        dest_path: staged_path_spec(src, vm_dir, os),
        make_executable: false,
        sign: false,
    }
}

/// The items that stage the artifact `src`, where there is one.
pub open spec fn optional_item(src: Option<Seq<char>>, vm_dir: Seq<char>, os: HostOs) -> Seq<
    StageItemView,
> {
    match src {
        Some(s) => seq![data_item(s, vm_dir, os)],
        None => Seq::empty(),
    }
}

/// Where the artifact `src` is staged, where there is one.
pub open spec fn optional_staged(src: Option<Seq<char>>, vm_dir: Seq<char>, os: HostOs) -> Option<
    Seq<char>,
> {
    match src {
        Some(s) => Some(staged_path_spec(s, vm_dir, os)),
        None => None,
    }
}

/// The items that stage the helper, where one is named and exists: it
/// is made executable except on Windows, and signed on macOS.
pub open spec fn helper_item(
    src: Option<Seq<char>>,
    exists: bool,
    vm_dir: Seq<char>,
    os: HostOs,
) -> Seq<StageItemView> {
    if src is Some && exists {
        seq![
            StageItemView {
                source: src->0,
                dest_path: staged_path_spec(src->0, vm_dir, os),
                make_executable: os != HostOs::Windows,
                sign: os == HostOs::MacOS,
            },
        ]
    } else {
        Seq::empty()
    }
}

/// The items that stage `paths` into the directory `vm` below
/// `data_dir`: the image, then kernel, initial RAM disk and helper as
/// far as they are there.
pub open spec fn resource_items(
    paths: ResourcePathsView,
    data_dir: Seq<char>,
    helper_exists: bool,
    os: HostOs,
) -> Seq<StageItemView> {
    let vm_dir = join_on_spec(data_dir, "vm"@, os);
    seq![data_item(paths.image, vm_dir, os)] + optional_item(paths.kernel, vm_dir, os)
        + optional_item(paths.initrd, vm_dir, os) + helper_item(
        paths.vz_helper,
        helper_exists,
        vm_dir,
        os,
    )
}

/// Where the artifacts `paths` are once they are staged.
pub open spec fn staged_paths(
    paths: ResourcePathsView,
    data_dir: Seq<char>,
    helper_exists: bool,
    os: HostOs,
) -> ResourcePathsView {
    let vm_dir = join_on_spec(data_dir, "vm"@, os);
    ResourcePathsView {
        image: staged_path_spec(paths.image, vm_dir, os),
        kernel: optional_staged(paths.kernel, vm_dir, os),
        initrd: optional_staged(paths.initrd, vm_dir, os),
        vz_helper: if helper_exists {
            optional_staged(paths.vz_helper, vm_dir, os)
        } else {
            None
        },
    }
}

/// The item that stages `src` into `vm_dir` as data.
fn stage_data(src: &str, vm_dir: &str, os: HostOs) -> (out: StageItem)
    ensures
        out@ == data_item(src@, vm_dir@, os),
{
    StageItem {
        source: src.to_owned(),
        dest_path: staged_path(src, vm_dir, os),
        make_executable: false,
        sign: false,
    }
}

/// Adds `item` to `items`.
fn push_item(items: &mut Vec<StageItem>, item: StageItem)
    ensures
        items_view(final(items)@) == items_view(old(items)@).push(item@),
{
    items.push(item);
    assert(items_view(items@) =~= items_view(old(items)@).push(item@));
}

/// Plans the staging of the artifacts `resource_paths` into the
/// directory `vm` below `data_dir`. `helper_exists` says whether the
/// helper that `resource_paths` names was found.
pub fn stage_vm_resources(
    resource_paths: &VMResourcePaths,
    data_dir: &str,
    helper_exists: bool,
    os: HostOs,
) -> (out: ResourcePlan)
    ensures
        out@ == resource_plan(resource_paths@, data_dir@, helper_exists, os),
{
    let vm_dir = join_on(data_dir, "vm", os);
    let dir = vm_dir.as_str();
    let mut items: Vec<StageItem> = Vec::new();
    assert(items_view(items@) =~= Seq::empty());
    let image = stage_data(resource_paths.image.as_str(), dir, os);
    let staged_image = image.dest_path.clone();
    push_item(&mut items, image);
    let staged_kernel = match &resource_paths.kernel {
        Some(kernel) => {
            let item = stage_data(kernel.as_str(), dir, os);
            let staged = item.dest_path.clone();
            push_item(&mut items, item);
            Some(staged)
        },
        None => None,
    };
    let staged_initrd = match &resource_paths.initrd {
        Some(initrd) => {
            let item = stage_data(initrd.as_str(), dir, os);
            let staged = item.dest_path.clone();
            push_item(&mut items, item);
            Some(staged)
        },
        None => None,
    };
    let staged_helper = match &resource_paths.vz_helper {
        Some(helper) => {
            if helper_exists {
                let dest_path = staged_path(helper.as_str(), dir, os);
                let staged = dest_path.clone();
                let make_executable = match os {
                    HostOs::Windows => false,
                    _ => true,
                };
                let sign = match os {
                    HostOs::MacOS => true,
                    _ => false,
                };
                push_item(
                    &mut items,
                    StageItem { source: helper.clone(), dest_path, make_executable, sign },
                );
                Some(staged)
            } else {
                None
            }
        },
        None => None,
    };
    assert(items_view(items@) =~= resource_items(resource_paths@, data_dir@, helper_exists, os));
    ResourcePlan {
        vm_dir,
        items,
        staged: VMResourcePaths {
            image: staged_image,
            kernel: staged_kernel,
            initrd: staged_initrd,
            vz_helper: staged_helper,
        },
    }
}

/// The entitlement that lets a program use the hypervisor, as a
/// property list.
pub open spec fn entitlements_text() -> Seq<char> {
    "<?xml version=\"1.0\" encoding=\"UTF-8\"?>\n<!DOCTYPE plist PUBLIC \"-//Apple//DTD PLIST 1.0//EN\" \"http://www.apple.com/DTDs/PropertyList-1.0.dtd\">\n<plist version=\"1.0\">\n<dict>\n    <key>com.apple.security.virtualization</key>\n    <true/>\n</dict>\n</plist>"@
}

/// How the helper is signed: the entitlements are written to a file
/// beside it, the signing tool is run, and the file is removed again.
pub struct SigningPlan {
    pub entitlements_path: String,
    pub entitlements: String,
    pub command: CommandSpec,
}

/// The file beside the helper `path` that holds the entitlements.
pub open spec fn entitlements_path(path: Seq<char>) -> Seq<char> {
    match parent_spec(path) {
        Some(dir) => join_spec(dir, "vz-helper.entitlements"@),
        None => join_spec("."@, "vz-helper.entitlements"@),
    }
}

/// The command that signs the helper `path` ad hoc with the
/// entitlements in the file `entitlements`.
pub open spec fn signing_command(path: Seq<char>, entitlements: Seq<char>) -> CommandView {
    plain_command(
        "codesign"@,
        seq!["--force"@, "--sign"@, "-"@, "--entitlements"@, entitlements, path],
    )
}

/// Plans the signing of the helper at `path` with the entitlement for
/// the hypervisor.
pub fn sign_vz_helper(path: &str) -> (out: SigningPlan)
    ensures
        out.entitlements_path@ == entitlements_path(path@),
        out.entitlements@ == entitlements_text(),
        out.command@ == signing_command(path@, entitlements_path(path@)),
{
    let entitlements_path = match slash_parent_dir(path) {
        Some(dir) => join_paths(dir.as_str(), "vz-helper.entitlements"),
        None => join_paths(".", "vz-helper.entitlements"),
    };
    let mut args = no_texts();
    push_text(&mut args, "--force");
    push_text(&mut args, "--sign");
    push_text(&mut args, "-");
    push_text(&mut args, "--entitlements");
    push_text(&mut args, entitlements_path.as_str());
    push_text(&mut args, path);
    assert(texts(args@) =~= seq![
        "--force"@,
        "--sign"@,
        "-"@,
        "--entitlements"@,
        entitlements_path@,
        path@,
    ]);
    SigningPlan {
        entitlements_path,
        entitlements: "<?xml version=\"1.0\" encoding=\"UTF-8\"?>\n<!DOCTYPE plist PUBLIC \"-//Apple//DTD PLIST 1.0//EN\" \"http://www.apple.com/DTDs/PropertyList-1.0.dtd\">\n<plist version=\"1.0\">\n<dict>\n    <key>com.apple.security.virtualization</key>\n    <true/>\n</dict>\n</plist>".to_owned(),
        command: CommandSpec::new("codesign", args),
    }
}

} // verus!
