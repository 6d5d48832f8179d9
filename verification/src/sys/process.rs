//! Wrappers for process, credential and resource calls.
use vstd::prelude::*;
use crate::arch::{Arch, Sysno, syscall_number};
use crate::call::{ResultType, Syscall};
use crate::ctypes::{Int, PidT, UnsignedInt};

verus! {

/// Prepares the call turning process accounting on into the file at the
/// NUL-terminated path at address `name` (off where `name` is 0).
///
/// Each argument travels as one register word, in order; its answer is read
/// with [`int_result`](crate::call::int_result).
pub fn acct(name: usize) -> (r: Syscall)
    ensures
        r@.sysno == Sysno::Acct,
        r@.args == seq![name as isize],
        r@.result == ResultType::Int,
        forall|arch: Arch| #[trigger] syscall_number(Sysno::Acct, arch) is Some ==> r@.serves(arch),
{
    Syscall::new1(Sysno::Acct, ResultType::Int, name as isize)
}

/// Prepares the call replacing the process image with the program at address
/// `filename`, with the argument and environment vectors at addresses `argv`
/// and `envp`.
///
/// Each argument travels as one register word, in order; its answer is the raw
/// word itself.
pub fn execve(filename: usize, argv: usize, envp: usize) -> (r: Syscall)
    ensures
        r@.sysno == Sysno::Execve,
        r@.args == seq![filename as isize, argv as isize, envp as isize],
        r@.result == ResultType::Long,
        forall|arch: Arch| #[trigger] syscall_number(Sysno::Execve, arch) is Some ==> r@.serves(arch),
{
    Syscall::new3(Sysno::Execve, ResultType::Long, filename as isize, argv as isize, envp as isize)
}

/// Prepares the call ending the calling thread with status `error_code`.
///
/// Each argument travels as one register word, in order; its answer is read
/// with [`int_result`](crate::call::int_result).
pub fn exit(error_code: Int) -> (r: Syscall)
    ensures
        r@.sysno == Sysno::Exit,
        r@.args == seq![error_code as isize],
        r@.result == ResultType::Int,
        forall|arch: Arch| #[trigger] syscall_number(Sysno::Exit, arch) is Some ==> r@.serves(arch),
{
    Syscall::new1(Sysno::Exit, ResultType::Int, error_code as isize)
}

/// Prepares the call creating a child process.
///
/// It takes no argument; its answer is read with
/// [`int_result`](crate::call::int_result).
pub fn fork() -> (r: Syscall)
    ensures
        r@.sysno == Sysno::Fork,
        r@.args == Seq::<isize>::empty(),
        r@.result == ResultType::Int,
        forall|arch: Arch| #[trigger] syscall_number(Sysno::Fork, arch) is Some ==> r@.serves(arch),
{
    Syscall::new0(Sysno::Fork, ResultType::Int)
}

/// Prepares the call reading the effective group ID as a 16-bit ID.
///
/// It takes no argument; its answer is read with
/// [`old_gid_result`](crate::call::old_gid_result).
pub fn getegid16() -> (r: Syscall)
    ensures
        r@.sysno == Sysno::Getegid,
        r@.args == Seq::<isize>::empty(),
        r@.result == ResultType::OldGid,
        forall|arch: Arch| #[trigger] syscall_number(Sysno::Getegid, arch) is Some ==> r@.serves(arch),
{
    Syscall::new0(Sysno::Getegid, ResultType::OldGid)
}

/// Prepares the call reading the effective user ID as a 16-bit ID.
///
/// It takes no argument; its answer is read with
/// [`old_uid_result`](crate::call::old_uid_result).
pub fn geteuid16() -> (r: Syscall)
    ensures
        r@.sysno == Sysno::Geteuid,
        r@.args == Seq::<isize>::empty(),
        r@.result == ResultType::OldUid,
        forall|arch: Arch| #[trigger] syscall_number(Sysno::Geteuid, arch) is Some ==> r@.serves(arch),
{
    Syscall::new0(Sysno::Geteuid, ResultType::OldUid)
}

/// Prepares the call reading the real group ID as a 16-bit ID.
///
/// It takes no argument; its answer is read with
/// [`old_gid_result`](crate::call::old_gid_result).
pub fn getgid16() -> (r: Syscall)
    ensures
        r@.sysno == Sysno::Getgid,
        r@.args == Seq::<isize>::empty(),
        r@.result == ResultType::OldGid,
        forall|arch: Arch| #[trigger] syscall_number(Sysno::Getgid, arch) is Some ==> r@.serves(arch),
{
    Syscall::new0(Sysno::Getgid, ResultType::OldGid)
}

/// Prepares the call copying at most `gidsetsize` supplementary 16-bit group
/// IDs to the array at address `grouplist`.
///
/// Each argument travels as one register word, in order; its answer is read
/// with [`int_result`](crate::call::int_result).
pub fn getgroups16(gidsetsize: Int, grouplist: usize) -> (r: Syscall)
    ensures
        r@.sysno == Sysno::Getgroups,
        r@.args == seq![gidsetsize as isize, grouplist as isize],
        r@.result == ResultType::Int,
        forall|arch: Arch| #[trigger] syscall_number(Sysno::Getgroups, arch) is Some ==> r@.serves(arch),
{
    Syscall::new2(Sysno::Getgroups, ResultType::Int, gidsetsize as isize, grouplist as isize)
}

/// Prepares the call reading the process group of process `pid`.
///
/// Each argument travels as one register word, in order; its answer is read
/// with [`int_result`](crate::call::int_result).
pub fn getpgid(pid: PidT) -> (r: Syscall)
    ensures
        r@.sysno == Sysno::Getpgid,
        r@.args == seq![pid as isize],
        r@.result == ResultType::Int,
        forall|arch: Arch| #[trigger] syscall_number(Sysno::Getpgid, arch) is Some ==> r@.serves(arch),
{
    Syscall::new1(Sysno::Getpgid, ResultType::Int, pid as isize)
}

/// Prepares the call reading the process group of the caller.
///
/// It takes no argument; its answer is read with
/// [`int_result`](crate::call::int_result).
pub fn getpgrp() -> (r: Syscall)
    ensures
        r@.sysno == Sysno::Getpgrp,
        r@.args == Seq::<isize>::empty(),
        r@.result == ResultType::Int,
        forall|arch: Arch| #[trigger] syscall_number(Sysno::Getpgrp, arch) is Some ==> r@.serves(arch),
{
    Syscall::new0(Sysno::Getpgrp, ResultType::Int)
}

/// Prepares the call reading the process ID of the caller.
///
/// It takes no argument; its answer is read with
/// [`int_result`](crate::call::int_result).
pub fn getpid() -> (r: Syscall)
    ensures
        r@.sysno == Sysno::Getpid,
        r@.args == Seq::<isize>::empty(),
        r@.result == ResultType::Int,
        forall|arch: Arch| #[trigger] syscall_number(Sysno::Getpid, arch) is Some ==> r@.serves(arch),
{
    Syscall::new0(Sysno::Getpid, ResultType::Int)
}

/// Prepares the call reading the process ID of the caller's parent.
///
/// It takes no argument; its answer is read with
/// [`int_result`](crate::call::int_result).
pub fn getppid() -> (r: Syscall)
    ensures
        r@.sysno == Sysno::Getppid,
        r@.args == Seq::<isize>::empty(),
        r@.result == ResultType::Int,
        forall|arch: Arch| #[trigger] syscall_number(Sysno::Getppid, arch) is Some ==> r@.serves(arch),
{
    Syscall::new0(Sysno::Getppid, ResultType::Int)
}

/// Prepares the call reading the highest scheduling priority of the processes
/// that `which` and `who` select.
///
/// Each argument travels as one register word, in order; its answer is read
/// with [`int_result`](crate::call::int_result).
pub fn getpriority(which: Int, who: Int) -> (r: Syscall)
    ensures
        r@.sysno == Sysno::Getpriority,
        r@.args == seq![which as isize, who as isize],
        r@.result == ResultType::Int,
        forall|arch: Arch| #[trigger] syscall_number(Sysno::Getpriority, arch) is Some ==> r@.serves(arch),
{
    Syscall::new2(Sysno::Getpriority, ResultType::Int, which as isize, who as isize)
}

/// Prepares the call filling the `struct rlimit` at address `rlim` with the
/// limits of `resource`.
///
/// Each argument travels as one register word, in order; its answer is read
/// with [`int_result`](crate::call::int_result).
pub fn getrlimit(resource: UnsignedInt, rlim: usize) -> (r: Syscall)
    ensures
        r@.sysno == Sysno::Getrlimit,
        r@.args == seq![resource as isize, rlim as isize],
        r@.result == ResultType::Int,
        forall|arch: Arch| #[trigger] syscall_number(Sysno::Getrlimit, arch) is Some ==> r@.serves(arch),
{
    Syscall::new2(Sysno::Getrlimit, ResultType::Int, resource as isize, rlim as isize)
}

/// Prepares the call filling the `struct rusage` at address `ru` with the
/// resource usage of `who`.
///
/// Each argument travels as one register word, in order; its answer is read
/// with [`int_result`](crate::call::int_result).
pub fn getrusage(who: Int, ru: usize) -> (r: Syscall)
    ensures
        r@.sysno == Sysno::Getrusage,
        r@.args == seq![who as isize, ru as isize],
        r@.result == ResultType::Int,
        forall|arch: Arch| #[trigger] syscall_number(Sysno::Getrusage, arch) is Some ==> r@.serves(arch),
{
    Syscall::new2(Sysno::Getrusage, ResultType::Int, who as isize, ru as isize)
}

/// Prepares the call reading the real user ID as a 16-bit ID.
///
/// It takes no argument; its answer is read with
/// [`old_uid_result`](crate::call::old_uid_result).
pub fn getuid16() -> (r: Syscall)
    ensures
        r@.sysno == Sysno::Getuid,
        r@.args == Seq::<isize>::empty(),
        r@.result == ResultType::OldUid,
        forall|arch: Arch| #[trigger] syscall_number(Sysno::Getuid, arch) is Some ==> r@.serves(arch),
{
    Syscall::new0(Sysno::Getuid, ResultType::OldUid)
}

/// Prepares the call of the historical `idle` entry, which current kernels
/// answer with `ENOSYS`.
///
/// It takes no argument; its answer is read with
/// [`int_result`](crate::call::int_result).
pub fn idle() -> (r: Syscall)
    ensures
        r@.sysno == Sysno::Idle,
        r@.args == Seq::<isize>::empty(),
        r@.result == ResultType::Int,
        forall|arch: Arch| #[trigger] syscall_number(Sysno::Idle, arch) is Some ==> r@.serves(arch),
{
    Syscall::new0(Sysno::Idle, ResultType::Int)
}

/// Prepares the call sending signal `sig` to the processes that `pid` selects.
///
/// Each argument travels as one register word, in order; its answer is the raw
/// word itself.
pub fn kill(pid: PidT, sig: Int) -> (r: Syscall)
    ensures
        r@.sysno == Sysno::Kill,
        r@.args == seq![pid as isize, sig as isize],
        r@.result == ResultType::Long,
        forall|arch: Arch| #[trigger] syscall_number(Sysno::Kill, arch) is Some ==> r@.serves(arch),
{
    Syscall::new2(Sysno::Kill, ResultType::Long, pid as isize, sig as isize)
}
} // verus!
