//! The kernel primitives that a launch consumes, described as plain values:
//! what is to be called and with which arguments.

use crate::command::texts;
use crate::text::{all_nul_free, lemma_nul_free_by_chars, nul_free};
use vstd::prelude::*;
use vstd::string::StringExecFns;

verus! {

/// One end of the barrier pipe.
#[derive(Clone, Copy, Debug, PartialEq, Eq, Structural)]
pub enum BarrierEnd {
    Read,
    Write,
}

/// A kernel primitive with its arguments.
#[derive(Clone, Debug, PartialEq, Eq)]
pub enum Syscall {
    /// `pipe`: create the barrier between parent and child.
    Pipe,
    /// `unshare(namespaces)`.
    Unshare { namespaces: i32 },
    /// `fork`.
    Fork,
    /// `close` on one end of the barrier pipe.
    CloseBarrier { end: BarrierEnd },
    /// `write` of the one-byte token to the barrier's write end.
    SignalBarrier,
    /// Blocking `read` of one byte from the barrier's read end.
    AwaitBarrier,
    /// `mount(source, target, fstype, flags, data)`.
    Mount { source: String, target: String, fstype: String, flags: u64, data: String },
    /// `mkdir(path, mode)`.
    Mkdir { path: String, mode: u32 },
    /// `pivot_root(new_root, put_old)`.
    PivotRoot { new_root: String, put_old: String },
    /// `chdir(path)`.
    Chdir { path: String },
    /// `umount2(target, options)`.
    Unmount { target: String, options: i32 },
    /// `rmdir(path)`.
    Rmdir { path: String },
    /// `execve(program, argv, NULL)`.
    Exec { program: String, argv: Vec<String> },
    /// `wait4(pid, NULL, 0, NULL)`.
    Wait { pid: i32 },
}

/// The mathematical content of a [`Syscall`].
#[verifier::ext_equal]
pub enum SyscallView {
    Pipe,
    Unshare { namespaces: int },
    Fork,
    CloseBarrier { end: BarrierEnd },
    SignalBarrier,
    AwaitBarrier,
    Mount { source: Seq<char>, target: Seq<char>, fstype: Seq<char>, flags: int, data: Seq<char> },
    Mkdir { path: Seq<char>, mode: int },
    PivotRoot { new_root: Seq<char>, put_old: Seq<char> },
    Chdir { path: Seq<char> },
    Unmount { target: Seq<char>, options: int },
    Rmdir { path: Seq<char> },
    Exec { program: Seq<char>, argv: Seq<Seq<char>> },
    Wait { pid: int },
}

impl SyscallView {
    /// Whether every text of the call can be handed to the kernel as a C
    /// string.
    pub open spec fn nul_free(self) -> bool {
        match self {
            SyscallView::Mount { source, target, fstype, data, .. } => {
                &&& nul_free(source)
                &&& nul_free(target)
                &&& nul_free(fstype)
                &&& nul_free(data)
            },
            SyscallView::Mkdir { path, .. } => nul_free(path),
            SyscallView::PivotRoot { new_root, put_old } => nul_free(new_root) && nul_free(put_old),
            SyscallView::Chdir { path } => nul_free(path),
            SyscallView::Unmount { target, .. } => nul_free(target),
            SyscallView::Rmdir { path } => nul_free(path),
            SyscallView::Exec { program, argv } => nul_free(program) && all_nul_free(argv),
            _ => true,
        }
    }
}

impl SyscallView {
    /// The name of the kernel primitive.
    pub open spec fn name(self) -> Seq<char> {
        match self {
            SyscallView::Pipe => "pipe"@,
            SyscallView::Unshare { .. } => "unshare"@,
            SyscallView::Fork => "fork"@,
            SyscallView::CloseBarrier { .. } => "close"@,
            SyscallView::SignalBarrier => "write"@,
            SyscallView::AwaitBarrier => "read"@,
            SyscallView::Mount { .. } => "mount"@,
            SyscallView::Mkdir { .. } => "mkdir"@,
            SyscallView::PivotRoot { .. } => "pivot_root"@,
            SyscallView::Chdir { .. } => "chdir"@,
            SyscallView::Unmount { .. } => "umount2"@,
            SyscallView::Rmdir { .. } => "rmdir"@,
            SyscallView::Exec { .. } => "execve"@,
            SyscallView::Wait { .. } => "wait4"@,
        }
    }
}

impl Syscall {
    /// The name of the kernel primitive.
    pub fn name(&self) -> (name: &'static str)
        ensures
            name@ == self@.name(),
    {
        match self {
            Syscall::Pipe => "pipe",
            Syscall::Unshare { .. } => "unshare",
            Syscall::Fork => "fork",
            Syscall::CloseBarrier { .. } => "close",
            Syscall::SignalBarrier => "write",
            Syscall::AwaitBarrier => "read",
            Syscall::Mount { .. } => "mount",
            Syscall::Mkdir { .. } => "mkdir",
            Syscall::PivotRoot { .. } => "pivot_root",
            Syscall::Chdir { .. } => "chdir",
            Syscall::Unmount { .. } => "umount2",
            Syscall::Rmdir { .. } => "rmdir",
            Syscall::Exec { .. } => "execve",
            Syscall::Wait { .. } => "wait4",
        }
    }
}

impl View for Syscall {
    type V = SyscallView;

    open spec fn view(&self) -> SyscallView {
        match self {
            Syscall::Pipe => SyscallView::Pipe,
            Syscall::Unshare { namespaces } => SyscallView::Unshare {
                namespaces: *namespaces as int,
            },
            Syscall::Fork => SyscallView::Fork,
            Syscall::CloseBarrier { end } => SyscallView::CloseBarrier { end: *end },
            Syscall::SignalBarrier => SyscallView::SignalBarrier,
            Syscall::AwaitBarrier => SyscallView::AwaitBarrier,
            Syscall::Mount { source, target, fstype, flags, data } => SyscallView::Mount {
                source: source@,
                target: target@,
                fstype: fstype@,
                flags: *flags as int,
                data: data@,
            },
            Syscall::Mkdir { path, mode } => SyscallView::Mkdir { path: path@, mode: *mode as int },
            Syscall::PivotRoot { new_root, put_old } => SyscallView::PivotRoot {
                new_root: new_root@,
                put_old: put_old@,
            },
            Syscall::Chdir { path } => SyscallView::Chdir { path: path@ },
            Syscall::Unmount { target, options } => SyscallView::Unmount {
                target: target@,
                options: *options as int,
            },
            Syscall::Rmdir { path } => SyscallView::Rmdir { path: path@ },
            Syscall::Exec { program, argv } => SyscallView::Exec {
                program: program@,
                argv: texts(argv@),
            },
            Syscall::Wait { pid } => SyscallView::Wait { pid: *pid as int },
        }
    }
}

/// `libc::MS_NOSUID`. Trusted: its value on Linux is 0x2.
#[verifier::external_body]
fn ms_nosuid() -> (flag: u64)
    ensures
        flag == 0x2,
{
    libc::MS_NOSUID as u64
}

/// `libc::MS_NODEV`. Trusted: its value on Linux is 0x4.
#[verifier::external_body]
fn ms_nodev() -> (flag: u64)
    ensures
        flag == 0x4,
{
    libc::MS_NODEV as u64
}

/// `libc::MS_NOEXEC`. Trusted: its value on Linux is 0x8.
#[verifier::external_body]
fn ms_noexec() -> (flag: u64)
    ensures
        flag == 0x8,
{
    libc::MS_NOEXEC as u64
}

/// `libc::MS_BIND`. Trusted: its value on Linux is 0x1000.
#[verifier::external_body]
fn ms_bind() -> (flag: u64)
    ensures
        flag == 0x1000,
{
    libc::MS_BIND as u64
}

/// `libc::MS_REC`. Trusted: its value on Linux is 0x4000.
#[verifier::external_body]
fn ms_rec() -> (flag: u64)
    ensures
        flag == 0x4000,
{
    libc::MS_REC as u64
}

/// `libc::MS_PRIVATE`. Trusted: its value on Linux is 0x40000.
#[verifier::external_body]
fn ms_private() -> (flag: u64)
    ensures
        flag == 0x40000,
{
    libc::MS_PRIVATE as u64
}

/// `libc::MS_SLAVE`. Trusted: its value on Linux is 0x80000.
#[verifier::external_body]
fn ms_slave() -> (flag: u64)
    ensures
        flag == 0x80000,
{
    libc::MS_SLAVE as u64
}

/// `libc::MS_STRICTATIME`. Trusted: its value on Linux is 0x1000000.
#[verifier::external_body]
fn ms_strictatime() -> (flag: u64)
    ensures
        flag == 0x1000000,
{
    libc::MS_STRICTATIME as u64
}

/// `libc::MNT_DETACH`. Trusted: its value on Linux is 0x2.
#[verifier::external_body]
fn mnt_detach() -> (flag: i32)
    ensures
        flag == 0x2,
{
    libc::MNT_DETACH
}

/// `libc::CLONE_NEWNS`. Trusted: its value on Linux is 0x20000.
#[verifier::external_body]
fn clone_newns() -> (flag: i32)
    ensures
        flag == 0x20000,
{
    libc::CLONE_NEWNS
}

/// `libc::CLONE_NEWPID`. Trusted: its value on Linux is 0x20000000.
#[verifier::external_body]
fn clone_newpid() -> (flag: i32)
    ensures
        flag == 0x20000000,
{
    libc::CLONE_NEWPID
}

/// `libc::CLONE_NEWNET`. Trusted: its value on Linux is 0x40000000.
#[verifier::external_body]
fn clone_newnet() -> (flag: i32)
    ensures
        flag == 0x40000000,
{
    libc::CLONE_NEWNET
}

/// Mount flags of the bind mount of the root onto itself: bind, recursive,
/// private propagation.
pub const BIND_PRIVATE_FLAGS: u64 = 0x45000;

/// Mount flags of the process-info and system-info pseudo-filesystems:
/// no-exec, no-setuid, no-device.
pub const RESTRICTED_FLAGS: u64 = 0xe;

/// Mount flags of the device pseudo-filesystem: strict atime, no-setuid.
pub const DEVICE_FLAGS: u64 = 0x1000002;

/// Mount flags that turn the old root into a slave mount, recursively.
pub const SLAVE_FLAGS: u64 = 0x84000;

/// Unmount flags of the old root: detach lazily.
pub const DETACH_FLAGS: i32 = 0x2;

/// Namespaces that the launcher unshares before it forks: process ids.
pub const PID_NAMESPACE: i32 = 0x20000000;

/// Namespaces that the child unshares: mounts and network.
pub const CHILD_NAMESPACES: i32 = 0x40020000;

/// The byte that the child writes to the barrier.
pub const BARRIER_TOKEN: u8 = 0;

/// Mode of the old-root marker directory.
pub const MARKER_MODE: u32 = 0o755;

/// Bind, recursive, private: `MS_BIND | MS_REC | MS_PRIVATE`.
pub fn bind_private_flags() -> (flags: u64)
    ensures
        flags == BIND_PRIVATE_FLAGS,
{
    let flags = ms_bind() | ms_rec() | ms_private();
    assert(0x1000u64 | 0x4000u64 | 0x40000u64 == 0x45000u64) by (bit_vector);
    flags
}

/// No-exec, no-setuid, no-device: `MS_NOEXEC | MS_NOSUID | MS_NODEV`.
pub fn restricted_flags() -> (flags: u64)
    ensures
        flags == RESTRICTED_FLAGS,
{
    let flags = ms_noexec() | ms_nosuid() | ms_nodev();
    assert(0x8u64 | 0x2u64 | 0x4u64 == 0xeu64) by (bit_vector);
    flags
}

/// Strict atime, no-setuid: `MS_STRICTATIME | MS_NOSUID`.
pub fn device_flags() -> (flags: u64)
    ensures
        flags == DEVICE_FLAGS,
{
    let flags = ms_strictatime() | ms_nosuid();
    assert(0x1000000u64 | 0x2u64 == 0x1000002u64) by (bit_vector);
    flags
}

/// Slave propagation, recursive: `MS_SLAVE | MS_REC`.
pub fn slave_flags() -> (flags: u64)
    ensures
        flags == SLAVE_FLAGS,
{
    let flags = ms_slave() | ms_rec();
    assert(0x80000u64 | 0x4000u64 == 0x84000u64) by (bit_vector);
    flags
}

/// Lazy detach: `MNT_DETACH`.
pub fn detach_flags() -> (flags: i32)
    ensures
        flags == DETACH_FLAGS,
{
    mnt_detach()
}

/// A new process-id namespace: `CLONE_NEWPID`.
pub fn pid_namespace() -> (flags: i32)
    ensures
        flags == PID_NAMESPACE,
{
    clone_newpid()
}

/// New mount and network namespaces: `CLONE_NEWNS | CLONE_NEWNET`.
pub fn child_namespaces() -> (flags: i32)
    ensures
        flags == CHILD_NAMESPACES,
{
    let flags = clone_newns() | clone_newnet();
    assert(0x20000i32 | 0x40000000i32 == 0x40020000i32) by (bit_vector);
    flags
}

/// The views of a sequence of kernel primitives.
pub open spec fn syscalls(plan: Seq<Syscall>) -> Seq<SyscallView> {
    plan.map_values(|c: Syscall| c@)
}

/// A pseudo-filesystem mount: no source device, the given target, type,
/// flags and options.
pub open spec fn pseudo_mount(
    target: Seq<char>,
    fstype: Seq<char>,
    flags: int,
    data: Seq<char>,
) -> SyscallView {
    SyscallView::Mount { source: ""@, target, fstype, flags, data }
}

/// The mounts that the child establishes once it stands on its new root, in
/// order: process information at `/proc`, system information at `/sys`, and
/// devices at `/dev`.
pub open spec fn pseudo_filesystem_mounts() -> Seq<SyscallView> {
    seq![
        pseudo_mount("/proc"@, "proc"@, RESTRICTED_FLAGS as int, ""@),
        pseudo_mount("/sys"@, "sysfs"@, RESTRICTED_FLAGS as int, ""@),
        pseudo_mount("/dev"@, "devtmpfs"@, DEVICE_FLAGS as int, "mode=755"@),
    ]
}

/// Appends `call` to `plan`.
pub fn push_syscall(plan: &mut Vec<Syscall>, call: Syscall)
    ensures
        syscalls(final(plan)@) == syscalls(old(plan)@).push(call@),
{
    plan.push(call);
}

/// The mount of one pseudo-filesystem.
pub fn mount_pseudo(target: &str, fstype: &str, flags: u64, data: &str) -> (call: Syscall)
    ensures
        call@ == pseudo_mount(target@, fstype@, flags as int, data@),
{
    Syscall::Mount {
        source: String::from_str(""),
        target: String::from_str(target),
        fstype: String::from_str(fstype),
        flags,
        data: String::from_str(data),
    }
}

/// The pseudo-filesystem mounts of the container, in the order in which they
/// are made.
pub fn pseudo_filesystems() -> (mounts: Vec<Syscall>)
    ensures
        syscalls(mounts@) == pseudo_filesystem_mounts(),
{
    let mut mounts: Vec<Syscall> = Vec::new();
    push_syscall(&mut mounts, mount_pseudo("/proc", "proc", restricted_flags(), ""));
    push_syscall(&mut mounts, mount_pseudo("/sys", "sysfs", restricted_flags(), ""));
    push_syscall(&mut mounts, mount_pseudo("/dev", "devtmpfs", device_flags(), "mode=755"));
    mounts
}

/// The pseudo-filesystem mounts hold no NUL.
pub proof fn lemma_pseudo_filesystems_nul_free()
    ensures
        forall|i: int|
            0 <= i < pseudo_filesystem_mounts().len() ==> (
            #[trigger] pseudo_filesystem_mounts()[i]).nul_free(),
{
    reveal_strlit("");
    reveal_strlit("/proc");
    reveal_strlit("proc");
    reveal_strlit("/sys");
    reveal_strlit("sysfs");
    reveal_strlit("/dev");
    reveal_strlit("devtmpfs");
    reveal_strlit("mode=755");
    lemma_nul_free_by_chars(""@);
    lemma_nul_free_by_chars("/proc"@);
    lemma_nul_free_by_chars("proc"@);
    lemma_nul_free_by_chars("/sys"@);
    lemma_nul_free_by_chars("sysfs"@);
    lemma_nul_free_by_chars("/dev"@);
    lemma_nul_free_by_chars("devtmpfs"@);
    lemma_nul_free_by_chars("mode=755"@);
}

} // verus!
