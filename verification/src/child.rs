//! The container's first process: its configuration, the directories and
//! mounts it sets up inside the new root, the program and argument vector it
//! executes, and the arguments of the `clone3` call that creates it directly
//! inside the container's control group.
use vstd::prelude::*;
use crate::paths::{join_path, path_join};
use crate::text::{chars_of, range_contains, views};

verus! {

/// What the container's first process needs to know.
pub struct ChildConfig {
    pub rootfs: String,
    pub command: String,
    pub args: Vec<String>,
    pub detach: bool,
    pub ready_fd: Option<i32>,
}

pub struct Child {
    pub config: ChildConfig,
}

/// One file system to mount inside the container.
pub struct MountSpec {
    pub source: String,
    pub target: String,
    pub fstype: String,
}

/// The view of a mount: source, target, type.
pub open spec fn mount_view(m: MountSpec) -> (Seq<char>, Seq<char>, Seq<char>) {
    (m.source@, m.target@, m.fstype@)
}

/// The file systems mounted after the root switch, in order: proc, sysfs,
/// devtmpfs, devpts and the cgroup v2 hierarchy.
pub open spec fn standard_mounts() -> Seq<(Seq<char>, Seq<char>, Seq<char>)> {
    seq![
        ("proc"@, "/proc"@, "proc"@),
        ("sysfs"@, "/sys"@, "sysfs"@),
        ("devtmpfs"@, "/dev"@, "devtmpfs"@),
        ("devpts"@, "/dev/pts"@, "devpts"@),
        ("cgroup2"@, "/sys/fs/cgroup"@, "cgroup2"@),
    ]
}

/// The directories made inside the new root before switching to it, in
/// order; the last one receives the old root.
pub open spec fn rootfs_dirs(rootfs: Seq<char>) -> Seq<Seq<char>> {
    seq![
        path_join(rootfs, "proc"@),
        path_join(rootfs, "sys"@),
        path_join(rootfs, "sys/fs"@),
        path_join(rootfs, "sys/fs/cgroup"@),
        path_join(rootfs, "dev"@),
        path_join(rootfs, "dev/pts"@),
        path_join(rootfs, ".old_root"@),
    ]
}

/// The program run in the container: the configured command, or "/bin/sh"
/// when the command holds a NUL character and so cannot be passed on.
pub open spec fn program_of(command: Seq<char>) -> Seq<char> {
    if command.contains('\0') {
        "/bin/sh"@
    } else {
        command
    }
}

/// The program run is the configured command itself, whatever it looks like
/// (a bare name such as "echo" is looked up through PATH); "/bin/sh" stands
/// in only for a command that holds a NUL character, which cannot be passed
/// to `execvp`.
pub proof fn lemma_program_is_command(command: Seq<char>)
    ensures
        !command.contains('\0') ==> program_of(command) == command,
        command.contains('\0') ==> program_of(command) == "/bin/sh"@,
{
}

fn mount(source: &str, target: &str, fstype: &str) -> (m: MountSpec)
    ensures
        mount_view(m) == (source@, target@, fstype@),
{
    MountSpec { source: source.to_owned(), target: target.to_owned(), fstype: fstype.to_owned() }
}

impl Child {
    pub fn new(rootfs: &str, command: &str, args: &Vec<String>, detach: bool, ready_fd: i32) -> (c: Self)
        ensures
            c.config.rootfs@ == rootfs@,
            c.config.command@ == command@,
            c.config.args@ == args@,
            c.config.detach == detach,
            c.config.ready_fd == Some(ready_fd),
    {
        Child {
            config: ChildConfig {
                rootfs: rootfs.to_owned(),
                command: command.to_owned(),
                args: args.clone(),
                detach,
                ready_fd: Some(ready_fd),
            },
        }
    }

    /// The directories to create inside the new root.
    pub fn rootfs_dirs(&self) -> (dirs: Vec<String>)
        ensures
            views(dirs@) == rootfs_dirs(self.config.rootfs@),
    {
        let r = self.config.rootfs.as_str();
        let mut dirs: Vec<String> = Vec::new();
        dirs.push(join_path(r, "proc"));
        dirs.push(join_path(r, "sys"));
        dirs.push(join_path(r, "sys/fs"));
        dirs.push(join_path(r, "sys/fs/cgroup"));
        dirs.push(join_path(r, "dev"));
        dirs.push(join_path(r, "dev/pts"));
        dirs.push(join_path(r, ".old_root"));
        assert(views(dirs@) =~= rootfs_dirs(self.config.rootfs@));
        dirs
    }

    /// The file systems to mount inside the container, in order.
    pub fn standard_mounts() -> (mounts: Vec<MountSpec>)
        ensures
            mounts@.map_values(|m: MountSpec| mount_view(m)) == standard_mounts(),
    {
        let mut mounts: Vec<MountSpec> = Vec::new();
        mounts.push(mount("proc", "/proc", "proc"));
        mounts.push(mount("sysfs", "/sys", "sysfs"));
        mounts.push(mount("devtmpfs", "/dev", "devtmpfs"));
        mounts.push(mount("devpts", "/dev/pts", "devpts"));
        mounts.push(mount("cgroup2", "/sys/fs/cgroup", "cgroup2"));
        assert(mounts@.map_values(|m: MountSpec| mount_view(m)) =~= standard_mounts());
        mounts
    }

    /// The program to execute and its argument vector: the program first,
    /// then the configured arguments.
    pub fn exec_argv(&self) -> (argv: Vec<String>)
        ensures
            views(argv@) == seq![program_of(self.config.command@)] + views(self.config.args@),
            argv@.len() == self.config.args@.len() + 1,
            !self.config.command@.contains('\0') ==> argv@[0]@ == self.config.command@,
            self.config.command@.contains('\0') ==> argv@[0]@ == "/bin/sh"@,
            forall|i: int| 0 <= i < self.config.args@.len() ==> #[trigger] argv@[i + 1]@ == self.config.args@[i]@,
    {
        let chars = chars_of(self.config.command.as_str());
        let has_nul = range_contains(&chars, 0, chars.len(), '\0');
        assert(chars@.subrange(0, chars@.len() as int) =~= chars@);
        let program = if has_nul { "/bin/sh".to_owned() } else { self.config.command.clone() };
        let mut argv: Vec<String> = Vec::new();
        argv.push(program);
        let mut i: usize = 0;
        while i < self.config.args.len()
            invariant
                i <= self.config.args@.len(),
                views(argv@) == seq![program_of(self.config.command@)] + views(self.config.args@).take(i as int),
            decreases self.config.args@.len() - i,
        {
            let ghost before = argv@;
            argv.push(self.config.args[i].clone());
            assert(views(argv@) =~= views(before).push(self.config.args@[i as int]@));
            i += 1;
            assert(views(argv@) =~= seq![program_of(self.config.command@)] + views(self.config.args@).take(i as int));
        }
        assert(views(self.config.args@).take(self.config.args@.len() as int) =~= views(self.config.args@));
        proof {
            let v = views(argv@);
            assert(v.len() == argv@.len());
            assert(argv@[0]@ == v[0]);
            assert forall|k: int| 0 <= k < self.config.args@.len() implies #[trigger] argv@[k + 1]@
                == self.config.args@[k]@ by {
                assert(argv@[k + 1]@ == v[k + 1]);
                assert(views(self.config.args@)[k] == self.config.args@[k]@);
            }
        }
        argv
    }
}

/// Namespace flags of the container process: new pid, UTS, mount and cgroup namespaces.
pub const CLONE_NEWNS: u64 = 0x0002_0000;
pub const CLONE_NEWCGROUP: u64 = 0x0200_0000;
pub const CLONE_NEWUTS: u64 = 0x0400_0000;
pub const CLONE_NEWPID: u64 = 0x2000_0000;
/// Start the child directly in the control group given by a directory descriptor.
pub const CLONE_INTO_CGROUP: u64 = 0x2_0000_0000;
/// The signal a parent gets when the child ends.
pub const SIGCHLD: u64 = 17;

/// The namespace flags of the container process.
pub fn container_clone_flags() -> (f: u64)
    ensures
        f == CLONE_NEWPID | CLONE_NEWUTS | CLONE_NEWNS | CLONE_NEWCGROUP,
{
    CLONE_NEWPID | CLONE_NEWUTS | CLONE_NEWNS | CLONE_NEWCGROUP
}

/// The argument record of `clone3`.
#[derive(Clone, Copy)]
pub struct CloneArgs {
    pub flags: u64,
    pub pidfd: u64,
    pub child_tid: u64,
    pub parent_tid: u64,
    pub exit_signal: u64,
    pub stack: u64,
    pub stack_size: u64,
    pub tls: u64,
    pub set_tid: u64,
    pub set_tid_size: u64,
    pub cgroup: u64,
}

/// The `clone3` arguments that start a child in the group open at
/// `cgroup_fd`: the given flags plus `CLONE_INTO_CGROUP`, `SIGCHLD` on exit,
/// everything else zero (no new stack, as the memory is not shared).
pub fn clone_args(flags: u64, cgroup_fd: i32) -> (a: CloneArgs)
    ensures
        a.flags == flags | CLONE_INTO_CGROUP,
        a.exit_signal == SIGCHLD,
        a.cgroup == cgroup_fd as u64,
        a.pidfd == 0 && a.child_tid == 0 && a.parent_tid == 0 && a.stack == 0,
        a.stack_size == 0 && a.tls == 0 && a.set_tid == 0 && a.set_tid_size == 0,
{
    CloneArgs {
        flags: flags | CLONE_INTO_CGROUP,
        pidfd: 0,
        child_tid: 0,
        parent_tid: 0,
        exit_signal: SIGCHLD,
        stack: 0,
        stack_size: 0,
        tls: 0,
        set_tid: 0,
        set_tid_size: 0,
        cgroup: cgroup_fd as u64,
    }
}

/// Where execution continues after `clone3` returned.
#[derive(Debug, PartialEq, Eq)]
pub enum CloneOutcome {
    /// In the new child.
    InChild,
    /// In the parent, which learns the child's pid.
    InParent(i32),
    /// The call failed; the error is in errno.
    Failed,
}

/// Reads the return value of `clone3`: 0 in the child, the child's pid in
/// the parent, a negative value on failure.
pub fn clone_outcome(ret: i64) -> (r: CloneOutcome)
    ensures
        ret == 0 ==> r == CloneOutcome::InChild,
        ret > 0 ==> r == CloneOutcome::InParent(ret as i32),
        ret < 0 ==> r == CloneOutcome::Failed,
{
    if ret == 0 {
        CloneOutcome::InChild
    } else if ret > 0 {
        CloneOutcome::InParent(ret as i32)
    } else {
        CloneOutcome::Failed
    }
}

} // verus!
