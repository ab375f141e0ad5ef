//! The boot plan: the one fixed sequence of privileged steps that builds the
//! new root and hands over to init inside it.
//!
//! A memory-backed filesystem is mounted at the staging root. Inside it lie a
//! work area, a writable upper layer and the merge target. A copy-on-write
//! filesystem over the current root is mounted at the merge target, the
//! kernel's virtual filesystems are mounted inside that, and init is started
//! in it.

use vstd::prelude::*;
use crate::mount::{bind_flag, ms_bind, MountRequest, MountRequestView};
use crate::text::{all_nul_free, is_nul_free, lemma_concat_nul_free};

verus! {

/// The staging root, where the memory-backed filesystem is mounted.
pub const TMPFS_PATH: &'static str = "/mnt/tmpfs-init";

/// The capacity of the memory-backed filesystem.
pub const SIZE: &'static str = "4G";

/// The number of steps in the plan.
pub const STEPS: usize = 10;

/// The place in the plan of the copy-on-write mount.
pub const OVERLAY_STEP: usize = 5;

/// The place in the plan of the handoff, its last step.
pub const HANDOFF_STEP: usize = 9;

/// One step of the plan.
#[derive(Debug, PartialEq, Eq)]
pub enum Step {
    /// Create a directory, and every parent of it that is missing.
    CreateDir { path: String },
    /// Mount a filesystem.
    Mount { request: MountRequest },
    /// Replace the process image by the program that `args` starts with.
    Handoff { args: Vec<String> },
}

/// What a [`Step`] holds.
#[verifier::ext_equal]
pub enum StepView {
    CreateDir { path: Seq<char> },
    Mount { request: MountRequestView },
    Handoff { args: Seq<Seq<char>> },
}

impl View for Step {
    type V = StepView;

    open spec fn view(&self) -> StepView {
        match self {
            Step::CreateDir { path } => StepView::CreateDir { path: path@ },
            Step::Mount { request } => StepView::Mount { request: request@ },
            Step::Handoff { args } => StepView::Handoff { args: args.deep_view() },
        }
    }
}

impl StepView {
    /// Every text of the step can be handed to the kernel, and a handoff
    /// names its program.
    pub open spec fn valid(self) -> bool {
        match self {
            StepView::CreateDir { path } => is_nul_free(path),
            StepView::Mount { request } => request.valid(),
            StepView::Handoff { args } => args.len() > 0 && all_nul_free(args),
        }
    }
}

/// The staging root.
pub open spec fn staging_root() -> Seq<char> {
    TMPFS_PATH@
}

/// The work area of the copy-on-write filesystem.
pub open spec fn work_dir() -> Seq<char> {
    staging_root() + "/work"@
}

/// The upper layer, where every write to the new root lands.
pub open spec fn upper_dir() -> Seq<char> {
    staging_root() + "/write"@
}

/// The merge target: the new root.
pub open spec fn merged_root() -> Seq<char> {
    staging_root() + "/root"@
}

/// A path lies inside a directory when it names something below it: the
/// directory's own path, a slash, and at least one character more.
pub open spec fn is_inside(path: Seq<char>, dir: Seq<char>) -> bool {
    &&& path.len() > dir.len() + 1
    &&& path.subrange(0, dir.len() as int) == dir
    &&& path[dir.len() as int] == '/'
}

/// The memory-backed filesystem at the staging root.
pub open spec fn tmpfs_mount() -> MountRequestView {
    MountRequestView {
        source: "tmpfs"@,
        target: staging_root(),
        fstype: "tmpfs"@,
        flags: 0,
        options: seq!["size="@ + SIZE@],
    }
}

/// The copy-on-write filesystem at the merge target: reads fall through to
/// the current root, writes land in the upper layer.
pub open spec fn overlay_mount() -> MountRequestView {
    MountRequestView {
        source: "overlay"@,
        target: merged_root(),
        fstype: "overlay"@,
        flags: 0,
        options: seq!["lowerdir=/"@, "upperdir="@ + upper_dir(), "workdir="@ + work_dir()],
    }
}

/// The host's device directory, bound into the new root.
pub open spec fn dev_mount() -> MountRequestView {
    MountRequestView {
        source: "/dev"@,
        target: merged_root() + "/dev"@,
        fstype: "bind"@,
        flags: bind_flag(),
        options: Seq::empty(),
    }
}

/// A fresh view of the kernel's hardware information in the new root.
pub open spec fn sys_mount() -> MountRequestView {
    MountRequestView {
        source: "sysfs"@,
        target: merged_root() + "/sys"@,
        fstype: "sysfs"@,
        flags: 0,
        options: Seq::empty(),
    }
}

/// A fresh view of the kernel's process information in the new root.
pub open spec fn proc_mount() -> MountRequestView {
    MountRequestView {
        source: "proc"@,
        target: merged_root() + "/proc"@,
        fstype: "proc"@,
        flags: 0,
        options: Seq::empty(),
    }
}

/// The argument list of the handoff: the utility that changes the root, the
/// new root, and init.
pub open spec fn init_args() -> Seq<Seq<char>> {
    seq!["/usr/sbin/chroot"@, merged_root() + "/"@, "/sbin/init"@]
}

/// The plan, step by step.
pub open spec fn plan() -> Seq<StepView> {
    seq![
        StepView::CreateDir { path: staging_root() },
        StepView::Mount { request: tmpfs_mount() },
        StepView::CreateDir { path: work_dir() },
        StepView::CreateDir { path: upper_dir() },
        StepView::CreateDir { path: merged_root() },
        StepView::Mount { request: overlay_mount() },
        StepView::Mount { request: dev_mount() },
        StepView::Mount { request: sys_mount() },
        StepView::Mount { request: proc_mount() },
        StepView::Handoff { args: init_args() },
    ]
}

/// None of the plan's literal texts holds a NUL character.
proof fn lemma_literals_nul_free()
    ensures
        is_nul_free(TMPFS_PATH@),
        is_nul_free(SIZE@),
        is_nul_free("/work"@),
        is_nul_free("/write"@),
        is_nul_free("/root"@),
        is_nul_free("/dev"@),
        is_nul_free("/sys"@),
        is_nul_free("/proc"@),
        is_nul_free("/"@),
        is_nul_free("tmpfs"@),
        is_nul_free("overlay"@),
        is_nul_free("bind"@),
        is_nul_free("sysfs"@),
        is_nul_free("proc"@),
        is_nul_free("size="@),
        is_nul_free("lowerdir=/"@),
        is_nul_free("upperdir="@),
        is_nul_free("workdir="@),
        is_nul_free("/usr/sbin/chroot"@),
        is_nul_free("/sbin/init"@),
{
    reveal_strlit("/mnt/tmpfs-init");
    reveal_strlit("4G");
    reveal_strlit("/work");
    reveal_strlit("/write");
    reveal_strlit("/root");
    reveal_strlit("/dev");
    reveal_strlit("/sys");
    reveal_strlit("/proc");
    reveal_strlit("/");
    reveal_strlit("tmpfs");
    reveal_strlit("overlay");
    reveal_strlit("bind");
    reveal_strlit("sysfs");
    reveal_strlit("proc");
    reveal_strlit("size=");
    reveal_strlit("lowerdir=/");
    reveal_strlit("upperdir=");
    reveal_strlit("workdir=");
    reveal_strlit("/usr/sbin/chroot");
    reveal_strlit("/sbin/init");
}

/// Every step of the plan can be handed on as it is.
pub proof fn lemma_plan_valid()
    ensures
        plan().len() == STEPS,
        forall|i: int| 0 <= i < plan().len() ==> (#[trigger] plan()[i]).valid(),
{
    lemma_literals_nul_free();
    lemma_concat_nul_free(staging_root(), "/work"@);
    lemma_concat_nul_free(staging_root(), "/write"@);
    lemma_concat_nul_free(staging_root(), "/root"@);
    lemma_concat_nul_free("size="@, SIZE@);
    lemma_concat_nul_free("upperdir="@, upper_dir());
    lemma_concat_nul_free("workdir="@, work_dir());
    lemma_concat_nul_free(merged_root(), "/dev"@);
    lemma_concat_nul_free(merged_root(), "/sys"@);
    lemma_concat_nul_free(merged_root(), "/proc"@);
    lemma_concat_nul_free(merged_root(), "/"@);
}

/// The plan mounts nothing inside the merge target before the copy-on-write
/// filesystem is mounted at it: every mount whose target lies inside the
/// merge target stands later in the plan.
pub proof fn lemma_inner_mounts_follow_overlay()
    ensures
        plan()[OVERLAY_STEP as int] == (StepView::Mount { request: overlay_mount() }),
        overlay_mount().target == merged_root(),
        forall|i: int|
            0 <= i < plan().len() && (#[trigger] plan()[i] matches StepView::Mount { request }
                && is_inside(request.target, merged_root())) ==> OVERLAY_STEP < i,
{
    reveal_strlit("/root");
}

/// The layers exist before they are used: the work area, the upper layer and
/// the merge target are created after the memory-backed filesystem is mounted
/// at the staging root, inside it, and before the copy-on-write mount that
/// names them.
pub proof fn lemma_layers_precede_overlay()
    ensures
        plan()[1] == (StepView::Mount { request: tmpfs_mount() }),
        tmpfs_mount().target == staging_root(),
        plan()[2] == (StepView::CreateDir { path: work_dir() }),
        plan()[3] == (StepView::CreateDir { path: upper_dir() }),
        plan()[4] == (StepView::CreateDir { path: merged_root() }),
        is_inside(work_dir(), staging_root()),
        is_inside(upper_dir(), staging_root()),
        is_inside(merged_root(), staging_root()),
        4 < OVERLAY_STEP,
        overlay_mount().options[1] == "upperdir="@ + upper_dir(),
        overlay_mount().options[2] == "workdir="@ + work_dir(),
{
    reveal_strlit("/work");
    reveal_strlit("/write");
    reveal_strlit("/root");
    assert(work_dir().subrange(0, staging_root().len() as int) =~= staging_root());
    assert(upper_dir().subrange(0, staging_root().len() as int) =~= staging_root());
    assert(merged_root().subrange(0, staging_root().len() as int) =~= staging_root());
}

/// The device directory and the kernel's two virtual filesystems are mounted
/// inside the merge target, and they are the only mounts after the
/// copy-on-write mount.
pub proof fn lemma_virtual_mounts_inside_root()
    ensures
        forall|i: int|
            OVERLAY_STEP < i < HANDOFF_STEP ==> (#[trigger] plan()[i] matches StepView::Mount {
                request,
            } && is_inside(request.target, merged_root())),
        plan()[HANDOFF_STEP as int] is Handoff,
        forall|i: int| 0 <= i < HANDOFF_STEP ==> !(#[trigger] plan()[i] is Handoff),
{
    reveal_strlit("/dev");
    reveal_strlit("/sys");
    reveal_strlit("/proc");
    assert(dev_mount().target.subrange(0, merged_root().len() as int) =~= merged_root());
    assert(sys_mount().target.subrange(0, merged_root().len() as int) =~= merged_root());
    assert(proc_mount().target.subrange(0, merged_root().len() as int) =~= merged_root());
}

fn staging_path(tail: &str) -> (path: String)
    ensures
        path@ == staging_root() + tail@,
{
    String::from_str(TMPFS_PATH).concat(tail)
}

fn merged_path(tail: &str) -> (path: String)
    ensures
        path@ == merged_root() + tail@,
{
    staging_path("/root").concat(tail)
}

fn plain_mount(source: &str, target: String, fstype: &str, flags: u64) -> (step: Step)
    ensures
        step@ == (StepView::Mount {
            request: MountRequestView {
                source: source@,
                target: target@,
                fstype: fstype@,
                flags,
                options: Seq::empty(),
            },
        }),
{
    let options: Vec<String> = Vec::new();
    assert(options.deep_view() =~= Seq::<Seq<char>>::empty());
    Step::Mount {
        request: MountRequest {
            source: String::from_str(source),
            target,
            fstype: String::from_str(fstype),
            flags,
            options,
        },
    }
}

/// The step at one place of the plan; none past its end.
pub fn step_at(index: usize) -> (step: Option<Step>)
    ensures
        match step {
            Some(s) => index < STEPS && s@ == plan()[index as int] && s@.valid(),
            None => index >= STEPS,
        },
{
    proof {
        lemma_plan_valid();
    }
    if index == 0 {
        Some(Step::CreateDir { path: String::from_str(TMPFS_PATH) })
    } else if index == 1 {
        let mut options: Vec<String> = Vec::new();
        options.push(String::from_str("size=").concat(SIZE));
        assert(options.deep_view() =~= tmpfs_mount().options);
        Some(
            Step::Mount {
                request: MountRequest {
                    source: String::from_str("tmpfs"),
                    target: String::from_str(TMPFS_PATH),
                    fstype: String::from_str("tmpfs"),
                    flags: 0,
                    options,
                },
            },
        )
    } else if index == 2 {
        Some(Step::CreateDir { path: staging_path("/work") })
    } else if index == 3 {
        Some(Step::CreateDir { path: staging_path("/write") })
    } else if index == 4 {
        Some(Step::CreateDir { path: staging_path("/root") })
    } else if index == OVERLAY_STEP {
        let mut options: Vec<String> = Vec::new();
        options.push(String::from_str("lowerdir=/"));
        options.push(String::from_str("upperdir=").concat(staging_path("/write").as_str()));
        options.push(String::from_str("workdir=").concat(staging_path("/work").as_str()));
        assert(options.deep_view() =~= overlay_mount().options);
        Some(
            Step::Mount {
                request: MountRequest {
                    source: String::from_str("overlay"),
                    target: staging_path("/root"),
                    fstype: String::from_str("overlay"),
                    flags: 0,
                    options,
                },
            },
        )
    } else if index == 6 {
        Some(plain_mount("/dev", merged_path("/dev"), "bind", ms_bind()))
    } else if index == 7 {
        Some(plain_mount("sysfs", merged_path("/sys"), "sysfs", 0))
    } else if index == 8 {
        Some(plain_mount("proc", merged_path("/proc"), "proc", 0))
    } else if index == HANDOFF_STEP {
        let mut args: Vec<String> = Vec::new();
        args.push(String::from_str("/usr/sbin/chroot"));
        args.push(merged_path("/"));
        args.push(String::from_str("/sbin/init"));
        assert(args.deep_view() =~= init_args());
        Some(Step::Handoff { args })
    } else {
        None
    }
}

} // verus!
