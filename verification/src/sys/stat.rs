//! Wrappers for the calls that fill file and file-system status buffers.
use vstd::prelude::*;
use crate::arch::{Arch, Sysno, syscall_number};
use crate::call::{LegacySyscall, ResultType, Syscall};
use crate::linux_1_0;
use crate::ctypes::UnsignedInt;

verus! {

/// Prepares the call filling the legacy `struct __old_kernel_stat` at address
/// `statbuf` for the file open as `fd`.
///
/// Each argument travels as one register word, in order; its answer is the raw
/// word itself.
pub fn fstat(fd: UnsignedInt, statbuf: usize) -> (r: Syscall)
    ensures
        r@.sysno == Sysno::Fstat,
        r@.args == seq![fd as isize, statbuf as isize],
        r@.result == ResultType::Long,
        forall|arch: Arch| #[trigger] syscall_number(Sysno::Fstat, arch) is Some ==> r@.serves(arch),
{
    Syscall::new2(Sysno::Fstat, ResultType::Long, fd as isize, statbuf as isize)
}

/// Prepares the call filling the `struct statfs` at address `buf` for the file
/// system of `fd`.
///
/// Each argument travels as one register word, in order; its answer is the raw
/// word itself.
pub fn fstatfs(fd: UnsignedInt, buf: usize) -> (r: Syscall)
    ensures
        r@.sysno == Sysno::Fstatfs,
        r@.args == seq![fd as isize, buf as isize],
        r@.result == ResultType::Long,
        forall|arch: Arch| #[trigger] syscall_number(Sysno::Fstatfs, arch) is Some ==> r@.serves(arch),
{
    Syscall::new2(Sysno::Fstatfs, ResultType::Long, fd as isize, buf as isize)
}

/// Prepares the call filling the legacy `struct __old_kernel_stat` at address
/// `statbuf` for the path at address `filename`, without following a final
/// symbolic link.
///
/// Each argument travels as one register word, in order; its answer is the raw
/// word itself.
pub fn oldlstat(filename: usize, statbuf: usize) -> (r: Syscall)
    ensures
        r@.sysno == Sysno::Oldlstat,
        r@.args == seq![filename as isize, statbuf as isize],
        r@.result == ResultType::Long,
        forall|arch: Arch| #[trigger] syscall_number(Sysno::Oldlstat, arch) is Some ==> r@.serves(arch),
{
    Syscall::new2(Sysno::Oldlstat, ResultType::Long, filename as isize, statbuf as isize)
}

/// Prepares the call filling the native `struct stat` at address `statbuf` for
/// the file open as `fd`.
///
/// Each argument travels as one register word, in order; its answer is the raw
/// word itself.
pub fn newfstat(fd: UnsignedInt, statbuf: usize) -> (r: Syscall)
    ensures
        r@.sysno == Sysno::Newfstat,
        r@.args == seq![fd as isize, statbuf as isize],
        r@.result == ResultType::Long,
        forall|arch: Arch| #[trigger] syscall_number(Sysno::Newfstat, arch) is Some ==> r@.serves(arch),
{
    Syscall::new2(Sysno::Newfstat, ResultType::Long, fd as isize, statbuf as isize)
}

/// Prepares the call filling the native `struct stat` at address `statbuf` for
/// the path at address `filename`, without following a final symbolic link.
///
/// Each argument travels as one register word, in order; its answer is the raw
/// word itself.
pub fn newlstat(filename: usize, statbuf: usize) -> (r: Syscall)
    ensures
        r@.sysno == Sysno::Newlstat,
        r@.args == seq![filename as isize, statbuf as isize],
        r@.result == ResultType::Long,
        forall|arch: Arch| #[trigger] syscall_number(Sysno::Newlstat, arch) is Some ==> r@.serves(arch),
{
    Syscall::new2(Sysno::Newlstat, ResultType::Long, filename as isize, statbuf as isize)
}

/// Prepares the call filling the `struct new_stat` at address `statbuf` for the
/// path at address `filename`.
///
/// Each argument travels as one register word, in order; its answer is the raw
/// word itself.
pub fn stat(filename: usize, statbuf: usize) -> (r: Syscall)
    ensures
        r@.sysno == Sysno::Newstat,
        r@.args == seq![filename as isize, statbuf as isize],
        r@.result == ResultType::Long,
        forall|arch: Arch| #[trigger] syscall_number(Sysno::Newstat, arch) is Some ==> r@.serves(arch),
{
    Syscall::new2(Sysno::Newstat, ResultType::Long, filename as isize, statbuf as isize)
}

/// Prepares the Linux 1.0 call filling the Linux 1.0 `struct statfs` at address
/// `buf` for the file system of `fd`.
///
/// Each argument travels as one register word, in order; its answer is the raw
/// word itself.
pub fn fstatfs_1_0(fd: UnsignedInt, buf: usize) -> (r: LegacySyscall)
    ensures
        r@.sysno == linux_1_0::Sysno::Fstatfs,
        r@.args == seq![fd as isize, buf as isize],
        r@.result == ResultType::Long,
        r@.serves(),
{
    LegacySyscall::new2(linux_1_0::Sysno::Fstatfs, ResultType::Long, fd as isize, buf as isize)
}

/// Prepares the Linux 1.0 call filling the Linux 1.0 `struct new_stat` at
/// address `statbuf` for the file open as `fd`.
///
/// Each argument travels as one register word, in order; its answer is the raw
/// word itself.
pub fn newfstat_1_0(fd: UnsignedInt, statbuf: usize) -> (r: LegacySyscall)
    ensures
        r@.sysno == linux_1_0::Sysno::Newfstat,
        r@.args == seq![fd as isize, statbuf as isize],
        r@.result == ResultType::Long,
        r@.serves(),
{
    LegacySyscall::new2(linux_1_0::Sysno::Newfstat, ResultType::Long, fd as isize, statbuf as isize)
}

/// Prepares the Linux 1.0 call filling the Linux 1.0 `struct new_stat` at
/// address `statbuf` for the path at address `filename`, without following a
/// final symbolic link.
///
/// Each argument travels as one register word, in order; its answer is the raw
/// word itself.
pub fn newlstat_1_0(filename: usize, statbuf: usize) -> (r: LegacySyscall)
    ensures
        r@.sysno == linux_1_0::Sysno::Newlstat,
        r@.args == seq![filename as isize, statbuf as isize],
        r@.result == ResultType::Long,
        r@.serves(),
{
    LegacySyscall::new2(linux_1_0::Sysno::Newlstat, ResultType::Long, filename as isize, statbuf as isize)
}
} // verus!
