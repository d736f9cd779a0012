//! The configuration with which a virtual machine is started.

use vstd::prelude::*;
use crate::text::{clone_opt, clone_pairs, opt_text, pairs};

verus! {

/// Configuration for starting a virtual machine. All paths are
/// absolute.
#[derive(Debug)]
pub struct VMConfig {
    /// The disk image, root file system or kernel, by platform.
    pub image_path: String,
    /// The directory of the host that the machine sees as its workspace.
    pub workspace_path: String,
    /// The number of virtual CPUs.
    pub cpus: u32,
    /// The memory in bytes.
    pub memory_bytes: u64,
    /// The port of the sandbox service, on the host and in the guest.
    pub sandbox_port: u16,
    /// The environment of the sandbox process, in the order in which
    /// the variables were first set; `wf` says that each occurs once.
    pub env: Vec<(String, String)>,
    /// The kernel, for a direct kernel boot.
    pub kernel_path: Option<String>,
    /// The initial RAM disk, for a direct kernel boot.
    pub initrd_path: Option<String>,
    /// The kernel command line.
    pub kernel_cmdline: Option<String>,
    /// The helper that drives the native hypervisor.
    pub vz_helper_path: Option<String>,
}

/// A `VMConfig` as a plain value.
pub struct VMConfigView {
    pub image_path: Seq<char>,
    pub workspace_path: Seq<char>,
    pub cpus: u32,
    pub memory_bytes: u64,
    pub sandbox_port: u16,
    pub env: Seq<(Seq<char>, Seq<char>)>,
    pub kernel_path: Option<Seq<char>>,
    pub initrd_path: Option<Seq<char>>,
    pub kernel_cmdline: Option<Seq<char>>,
    pub vz_helper_path: Option<Seq<char>>,
}

impl View for VMConfig {
    type V = VMConfigView;

    open spec fn view(&self) -> VMConfigView {
        VMConfigView {
            image_path: self.image_path@,
            workspace_path: self.workspace_path@,
            cpus: self.cpus,
            memory_bytes: self.memory_bytes,
            sandbox_port: self.sandbox_port,
            env: pairs(self.env@),
            kernel_path: opt_text(self.kernel_path),
            initrd_path: opt_text(self.initrd_path),
            kernel_cmdline: opt_text(self.kernel_cmdline),
            vz_helper_path: opt_text(self.vz_helper_path),
        }
    }
}

/// The memory of a machine unless another is asked for: 2 GiB.
pub const DEFAULT_MEMORY_BYTES: u64 = 2147483648;

/// The configuration with the defaults: 2 virtual CPUs, 2 GiB of
/// memory, port 8080, an empty environment, and nothing optional.
pub open spec fn default_config(image_path: Seq<char>, workspace_path: Seq<char>) -> VMConfigView {
    VMConfigView {
        image_path,
        workspace_path,
        cpus: 2,
        memory_bytes: 2147483648,
        sandbox_port: 8080,
        env: Seq::empty(),
        kernel_path: None,
        initrd_path: None,
        kernel_cmdline: None,
        vz_helper_path: None,
    }
}

/// The environment `env` with `key` set to `value`: the first entry for
/// `key` is replaced where there is one, else the pair is added at the
/// end.
pub open spec fn upsert(env: Seq<(Seq<char>, Seq<char>)>, key: Seq<char>, value: Seq<char>) -> Seq<
    (Seq<char>, Seq<char>),
>
    decreases env.len(),
{
    if env.len() == 0 {
        seq![(key, value)]
    } else if env[0].0 == key {
        seq![(key, value)] + env.drop_first()
    } else {
        seq![env[0]] + upsert(env.drop_first(), key, value)
    }
}

/// The value of the first entry for `key` in `env`.
pub open spec fn lookup(env: Seq<(Seq<char>, Seq<char>)>, key: Seq<char>) -> Option<Seq<char>>
    decreases env.len(),
{
    if env.len() == 0 {
        None
    } else if env[0].0 == key {
        Some(env[0].1)
    } else {
        lookup(env.drop_first(), key)
    }
}

/// Whether no variable occurs twice in `env`.
pub open spec fn distinct_keys(env: Seq<(Seq<char>, Seq<char>)>) -> bool {
    forall|i: int, j: int| 0 <= i < j < env.len() ==> env[i].0 != env[j].0
}

/// A variable that is set has the value it was set to, every other
/// variable keeps its value, and no variable comes to occur twice.
pub proof fn law_upsert(
    env: Seq<(Seq<char>, Seq<char>)>,
    key: Seq<char>,
    value: Seq<char>,
    other: Seq<char>,
)
    ensures
        lookup(upsert(env, key, value), key) == Some(value),
        other != key ==> lookup(upsert(env, key, value), other) == lookup(env, other),
        distinct_keys(env) ==> distinct_keys(upsert(env, key, value)),
        upsert(env, key, value).len() == env.len() || upsert(env, key, value).len() == env.len()
            + 1,
    decreases env.len(),
{
    let after = upsert(env, key, value);
    if env.len() == 0 {
        assert(after[0] == (key, value));
        assert(after.drop_first() =~= Seq::empty());
        assert(lookup(after.drop_first(), other) is None);
    } else if env[0].0 == key {
        assert(after[0] == (key, value));
        assert(after.drop_first() =~= env.drop_first());
        if distinct_keys(env) {
            assert forall|i: int, j: int| 0 <= i < j < after.len() implies after[i].0
                != after[j].0 by {
                if i == 0 {
                    assert(after[j] == env[j]);
                    assert(env[0].0 != env[j].0);
                } else {
                    assert(after[i] == env[i] && after[j] == env[j]);
                }
            }
        }
    } else {
        let rest = env.drop_first();
        law_upsert(rest, key, value, other);
        assert(after[0] == env[0]);
        assert(after.drop_first() =~= upsert(rest, key, value));
        if distinct_keys(env) {
            assert(distinct_keys(rest)) by {
                assert forall|i: int, j: int| 0 <= i < j < rest.len() implies rest[i].0
                    != rest[j].0 by {
                    assert(rest[i] == env[i + 1] && rest[j] == env[j + 1]);
                }
            }
            lemma_upsert_keys(rest, key, value);
            assert forall|i: int, j: int| 0 <= i < j < after.len() implies after[i].0
                != after[j].0 by {
                let tail = upsert(rest, key, value);
                if i == 0 {
                    assert(after[j] == tail[j - 1]);
                    if tail[j - 1].0 != key {
                        let k = choose|k: int| 0 <= k < rest.len() && rest[k].0 == tail[j - 1].0;
                        assert(rest[k] == env[k + 1]);
                    }
                } else {
                    assert(after[i] == tail[i - 1] && after[j] == tail[j - 1]);
                }
            }
        }
    }
}

/// Every variable of an environment in which `key` was set is `key` or
/// was there before.
proof fn lemma_upsert_keys(env: Seq<(Seq<char>, Seq<char>)>, key: Seq<char>, value: Seq<char>)
    ensures
        forall|j: int|
            0 <= j < upsert(env, key, value).len() && #[trigger] upsert(env, key, value)[j].0
                != key ==> exists|k: int| 0 <= k < env.len() && env[k].0 == upsert(
                env,
                key,
                value,
            )[j].0,
    decreases env.len(),
{
    let after = upsert(env, key, value);
    if env.len() == 0 {
    } else if env[0].0 == key {
        assert forall|j: int| 0 <= j < after.len() && #[trigger] after[j].0 != key implies exists|
            k: int,
        |
            0 <= k < env.len() && env[k].0 == after[j].0 by {
            assert(after[j] == env[j]);
        }
    } else {
        let rest = env.drop_first();
        lemma_upsert_keys(rest, key, value);
        let tail = upsert(rest, key, value);
        assert forall|j: int| 0 <= j < after.len() && #[trigger] after[j].0 != key implies exists|
            k: int,
        |
            0 <= k < env.len() && env[k].0 == after[j].0 by {
            if j == 0 {
                assert(after[0] == env[0]);
            } else {
                assert(after[j] == tail[j - 1]);
                let k = choose|k: int| 0 <= k < rest.len() && rest[k].0 == tail[j - 1].0;
                assert(rest[k] == env[k + 1]);
            }
        }
    }
}

impl VMConfig {
    /// The invariant of a configuration: no variable occurs twice in
    /// its environment. `new` and `default` establish it, and every
    /// setter keeps it.
    pub open spec fn wf(&self) -> bool {
        distinct_keys(self@.env)
    }

    /// A configuration for `image_path` and `workspace_path` with the
    /// defaults.
    pub fn new(image_path: String, workspace_path: String) -> (out: Self)
        ensures
            out@ == default_config(image_path@, workspace_path@),
            out.wf(),
    {
        let out = VMConfig {
            image_path,
            workspace_path,
            cpus: 2,
            memory_bytes: DEFAULT_MEMORY_BYTES,
            sandbox_port: 8080,
            env: Vec::new(),
            kernel_path: None,
            initrd_path: None,
            kernel_cmdline: None,
            vz_helper_path: None,
        };
        assert(pairs(out.env@) =~= Seq::empty());
        out
    }

    /// Sets the number of virtual CPUs.
    pub fn with_cpus(self, cpus: u32) -> (out: Self)
        ensures
            out@ == (VMConfigView { cpus, ..self@ }),
            self.wf() ==> out.wf(),
    {
        let mut out = self;
        out.cpus = cpus;
        out
    }

    /// Sets the memory in bytes.
    pub fn with_memory(self, bytes: u64) -> (out: Self)
        ensures
            out@ == (VMConfigView { memory_bytes: bytes, ..self@ }),
            self.wf() ==> out.wf(),
    {
        let mut out = self;
        out.memory_bytes = bytes;
        out
    }

    /// Sets the port of the sandbox service.
    pub fn with_port(self, port: u16) -> (out: Self)
        ensures
            out@ == (VMConfigView { sandbox_port: port, ..self@ }),
            self.wf() ==> out.wf(),
    {
        let mut out = self;
        out.sandbox_port = port;
        out
    }

    /// Sets the variable `key` of the environment to `value`.
    pub fn with_env(self, key: &str, value: &str) -> (out: Self)
        ensures
            out@ == (VMConfigView { env: upsert(self@.env, key@, value@), ..self@ }),
            self.wf() ==> out.wf(),
    {
        proof {
            law_upsert(self@.env, key@, value@, key@);
        }
        let mut out = self;
        let ghost before = pairs(out.env@);
        let wanted = key.to_owned();
        let mut i: usize = 0;
        proof {
            assert(before.skip(0) =~= before);
            assert(before.take(0) + before =~= before);
        }
        while i < out.env.len()
            invariant
                i <= out.env.len(),
                pairs(out.env@) == before,
                before == self@.env,
                wanted@ == key@,
                upsert(before, key@, value@) == before.take(i as int) + upsert(
                    before.skip(i as int),
                    key@,
                    value@,
                ),
                out@ == (VMConfigView { env: before, ..self@ }),
            decreases out.env.len() - i,
        {
            let ghost rest = before.skip(i as int);
            proof {
                assert(rest[0] == before[i as int]);
                assert(rest.drop_first() =~= before.skip(i + 1));
            }
            if out.env[i].0 == wanted {
                out.env.set(i, (key.to_owned(), value.to_owned()));
                proof {
                    assert(pairs(out.env@) =~= before.take(i as int) + (seq![(key@, value@)]
                        + rest.drop_first()));
                    assert(upsert(rest, key@, value@) == seq![(key@, value@)] + rest.drop_first());
                    assert(out@ =~= (VMConfigView {
                        env: upsert(self@.env, key@, value@),
                        ..self@
                    }));
                }
                return out;
            }
            proof {
                assert(before.take(i + 1) =~= before.take(i as int) + seq![before[i as int]]);
                assert(before.take(i as int) + (seq![rest[0]] + upsert(
                    rest.drop_first(),
                    key@,
                    value@,
                )) =~= before.take(i + 1) + upsert(before.skip(i + 1), key@, value@));
            }
            i = i + 1;
        }
        out.env.push((key.to_owned(), value.to_owned()));
        proof {
            assert(before.skip(before.len() as int) =~= Seq::empty());
            assert(before.take(before.len() as int) =~= before);
            assert(pairs(out.env@) =~= before + seq![(key@, value@)]);
        }
        out
    }

    /// Sets the kernel, for a direct kernel boot.
    pub fn with_kernel(self, path: String) -> (out: Self)
        ensures
            out@ == (VMConfigView { kernel_path: Some(path@), ..self@ }),
            self.wf() ==> out.wf(),
    {
        let mut out = self;
        out.kernel_path = Some(path);
        out
    }

    /// Sets the initial RAM disk, for a direct kernel boot.
    pub fn with_initrd(self, path: String) -> (out: Self)
        ensures
            out@ == (VMConfigView { initrd_path: Some(path@), ..self@ }),
            self.wf() ==> out.wf(),
    {
        let mut out = self;
        out.initrd_path = Some(path);
        out
    }

    /// Sets the kernel command line.
    pub fn with_cmdline(self, cmdline: &str) -> (out: Self)
        ensures
            out@ == (VMConfigView { kernel_cmdline: Some(cmdline@), ..self@ }),
            self.wf() ==> out.wf(),
    {
        let mut out = self;
        out.kernel_cmdline = Some(cmdline.to_owned());
        out
    }

    /// Sets the helper that drives the native hypervisor.
    pub fn with_vz_helper(self, path: String) -> (out: Self)
        ensures
            out@ == (VMConfigView { vz_helper_path: Some(path@), ..self@ }),
            self.wf() ==> out.wf(),
    {
        let mut out = self;
        out.vz_helper_path = Some(path);
        out
    }

    /// The memory in mebibytes, rounded down.
    pub fn memory_mb(&self) -> (out: u64)
        ensures
            out == self.memory_bytes / 1048576,
    {
        self.memory_bytes / 1048576
    }

    /// A copy of the configuration.
    pub fn duplicate(&self) -> (out: Self)
        ensures
            out@ == self@,
    {
        VMConfig {
            image_path: self.image_path.clone(),
            workspace_path: self.workspace_path.clone(),
            cpus: self.cpus,
            memory_bytes: self.memory_bytes,
            sandbox_port: self.sandbox_port,
            env: clone_pairs(&self.env),
            kernel_path: clone_opt(&self.kernel_path),
            initrd_path: clone_opt(&self.initrd_path),
            kernel_cmdline: clone_opt(&self.kernel_cmdline),
            vz_helper_path: clone_opt(&self.vz_helper_path),
        }
    }
}

impl Clone for VMConfig {
    fn clone(&self) -> (out: Self)
        ensures
            out@ == self@,
    {
        self.duplicate()
    }
}

impl Default for VMConfig {
    fn default() -> (out: Self)
        ensures
            out@ == default_config(Seq::empty(), Seq::empty()),
            out.wf(),
    {
        VMConfig::new(String::new(), String::new())
    }
}

} // verus!
