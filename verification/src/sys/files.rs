//! Wrappers for path and file-descriptor calls.
use vstd::prelude::*;
use crate::arch::{Arch, Sysno, syscall_number};
use crate::call::{LegacySyscall, ResultType, Syscall};
use crate::linux_1_0;
use crate::ctypes::{Int, Long, OffT, OldGidT, OldUidT, UModeT, UnsignedInt, UnsignedLong};

verus! {

/// Prepares the call checking whether the caller may access the file at the
/// NUL-terminated path at address `pathname` in `mode`.
///
/// Each argument travels as one register word, in order; its answer is the raw
/// word itself.
pub fn access(pathname: usize, mode: Int) -> (r: Syscall)
    ensures
        r@.sysno == Sysno::Access,
        r@.args == seq![pathname as isize, mode as isize],
        r@.result == ResultType::Long,
        forall|arch: Arch| #[trigger] syscall_number(Sysno::Access, arch) is Some ==> r@.serves(arch),
{
    Syscall::new2(Sysno::Access, ResultType::Long, pathname as isize, mode as isize)
}

/// Prepares the call changing the working directory to the NUL-terminated path
/// at address `filename`.
///
/// Each argument travels as one register word, in order; its answer is read
/// with [`int_result`](crate::call::int_result).
pub fn chdir(filename: usize) -> (r: Syscall)
    ensures
        r@.sysno == Sysno::Chdir,
        r@.args == seq![filename as isize],
        r@.result == ResultType::Int,
        forall|arch: Arch| #[trigger] syscall_number(Sysno::Chdir, arch) is Some ==> r@.serves(arch),
{
    Syscall::new1(Sysno::Chdir, ResultType::Int, filename as isize)
}

/// Prepares the call setting the permission bits of the file at the
/// NUL-terminated path at address `pathname`.
///
/// Each argument travels as one register word, in order; its answer is read
/// with [`int_result`](crate::call::int_result).
pub fn chmod(pathname: usize, mode: UModeT) -> (r: Syscall)
    ensures
        r@.sysno == Sysno::Chmod,
        r@.args == seq![pathname as isize, mode as isize],
        r@.result == ResultType::Int,
        forall|arch: Arch| #[trigger] syscall_number(Sysno::Chmod, arch) is Some ==> r@.serves(arch),
{
    Syscall::new2(Sysno::Chmod, ResultType::Int, pathname as isize, mode as isize)
}

/// Prepares the call changing the root directory to the NUL-terminated path at
/// address `name`.
///
/// Each argument travels as one register word, in order; its answer is read
/// with [`int_result`](crate::call::int_result).
pub fn chroot(name: usize) -> (r: Syscall)
    ensures
        r@.sysno == Sysno::Chroot,
        r@.args == seq![name as isize],
        r@.result == ResultType::Int,
        forall|arch: Arch| #[trigger] syscall_number(Sysno::Chroot, arch) is Some ==> r@.serves(arch),
{
    Syscall::new1(Sysno::Chroot, ResultType::Int, name as isize)
}

/// Prepares the call closing file descriptor `fd`.
///
/// Each argument travels as one register word, in order; its answer is read
/// with [`int_result`](crate::call::int_result).
pub fn close(fd: Int) -> (r: Syscall)
    ensures
        r@.sysno == Sysno::Close,
        r@.args == seq![fd as isize],
        r@.result == ResultType::Int,
        forall|arch: Arch| #[trigger] syscall_number(Sysno::Close, arch) is Some ==> r@.serves(arch),
{
    Syscall::new1(Sysno::Close, ResultType::Int, fd as isize)
}

/// Prepares the call creating (or truncating) the file at the NUL-terminated
/// path at address `pathname` and opening it for writing.
///
/// Each argument travels as one register word, in order; its answer is the raw
/// word itself.
pub fn creat(pathname: usize, mode: UModeT) -> (r: Syscall)
    ensures
        r@.sysno == Sysno::Creat,
        r@.args == seq![pathname as isize, mode as isize],
        r@.result == ResultType::Long,
        forall|arch: Arch| #[trigger] syscall_number(Sysno::Creat, arch) is Some ==> r@.serves(arch),
{
    Syscall::new2(Sysno::Creat, ResultType::Long, pathname as isize, mode as isize)
}

/// Prepares the call duplicating file descriptor `fildes` onto the lowest free
/// descriptor.
///
/// Each argument travels as one register word, in order; its answer is read
/// with [`int_result`](crate::call::int_result).
pub fn dup(fildes: UnsignedInt) -> (r: Syscall)
    ensures
        r@.sysno == Sysno::Dup,
        r@.args == seq![fildes as isize],
        r@.result == ResultType::Int,
        forall|arch: Arch| #[trigger] syscall_number(Sysno::Dup, arch) is Some ==> r@.serves(arch),
{
    Syscall::new1(Sysno::Dup, ResultType::Int, fildes as isize)
}

/// Prepares the call duplicating file descriptor `oldfd` onto `newfd`.
///
/// Each argument travels as one register word, in order; its answer is read
/// with [`int_result`](crate::call::int_result).
pub fn dup2(oldfd: UnsignedInt, newfd: UnsignedInt) -> (r: Syscall)
    ensures
        r@.sysno == Sysno::Dup2,
        r@.args == seq![oldfd as isize, newfd as isize],
        r@.result == ResultType::Int,
        forall|arch: Arch| #[trigger] syscall_number(Sysno::Dup2, arch) is Some ==> r@.serves(arch),
{
    Syscall::new2(Sysno::Dup2, ResultType::Int, oldfd as isize, newfd as isize)
}

/// Prepares the call changing the working directory to the directory open as
/// `fd`.
///
/// Each argument travels as one register word, in order; its answer is read
/// with [`int_result`](crate::call::int_result).
pub fn fchdir(fd: UnsignedInt) -> (r: Syscall)
    ensures
        r@.sysno == Sysno::Fchdir,
        r@.args == seq![fd as isize],
        r@.result == ResultType::Int,
        forall|arch: Arch| #[trigger] syscall_number(Sysno::Fchdir, arch) is Some ==> r@.serves(arch),
{
    Syscall::new1(Sysno::Fchdir, ResultType::Int, fd as isize)
}

/// Prepares the call setting the permission bits of the file open as `fd`.
///
/// Each argument travels as one register word, in order; its answer is read
/// with [`int_result`](crate::call::int_result).
pub fn fchmod(fd: Int, mode: UModeT) -> (r: Syscall)
    ensures
        r@.sysno == Sysno::Fchmod,
        r@.args == seq![fd as isize, mode as isize],
        r@.result == ResultType::Int,
        forall|arch: Arch| #[trigger] syscall_number(Sysno::Fchmod, arch) is Some ==> r@.serves(arch),
{
    Syscall::new2(Sysno::Fchmod, ResultType::Int, fd as isize, mode as isize)
}

/// Prepares the call changing the owner and group of the file open as `fd`,
/// with 16-bit IDs.
///
/// Each argument travels as one register word, in order; its answer is read
/// with [`int_result`](crate::call::int_result).
pub fn fchown16(fd: UnsignedInt, user: OldUidT, group: OldGidT) -> (r: Syscall)
    ensures
        r@.sysno == Sysno::Fchown,
        r@.args == seq![fd as isize, user as isize, group as isize],
        r@.result == ResultType::Int,
        forall|arch: Arch| #[trigger] syscall_number(Sysno::Fchown, arch) is Some ==> r@.serves(arch),
{
    Syscall::new3(Sysno::Fchown, ResultType::Int, fd as isize, user as isize, group as isize)
}

/// Prepares the call running the descriptor command `cmd` on `fd` with argument
/// `arg`.
///
/// Each argument travels as one register word, in order; its answer is the raw
/// word itself.
pub fn fcntl(fd: UnsignedInt, cmd: Int, arg: Long) -> (r: Syscall)
    ensures
        r@.sysno == Sysno::Fcntl,
        r@.args == seq![fd as isize, cmd as isize, arg as isize],
        r@.result == ResultType::Long,
        forall|arch: Arch| #[trigger] syscall_number(Sysno::Fcntl, arch) is Some ==> r@.serves(arch),
{
    Syscall::new3(Sysno::Fcntl, ResultType::Long, fd as isize, cmd as isize, arg as isize)
}

/// Prepares the call flushing the data and metadata of the file open as `fd`.
///
/// Each argument travels as one register word, in order; its answer is read
/// with [`int_result`](crate::call::int_result).
pub fn fsync(fd: Int) -> (r: Syscall)
    ensures
        r@.sysno == Sysno::Fsync,
        r@.args == seq![fd as isize],
        r@.result == ResultType::Int,
        forall|arch: Arch| #[trigger] syscall_number(Sysno::Fsync, arch) is Some ==> r@.serves(arch),
{
    Syscall::new1(Sysno::Fsync, ResultType::Int, fd as isize)
}

/// Prepares the call setting the length of the file open as `fd`.
///
/// Each argument travels as one register word, in order; its answer is read
/// with [`int_result`](crate::call::int_result).
pub fn ftruncate(fd: UnsignedInt, length: OffT) -> (r: Syscall)
    ensures
        r@.sysno == Sysno::Ftruncate,
        r@.args == seq![fd as isize, length as isize],
        r@.result == ResultType::Int,
        forall|arch: Arch| #[trigger] syscall_number(Sysno::Ftruncate, arch) is Some ==> r@.serves(arch),
{
    Syscall::new2(Sysno::Ftruncate, ResultType::Int, fd as isize, length as isize)
}

/// Prepares the call running the device request `request` on `fd` with argument
/// `arg`.
///
/// Each argument travels as one register word, in order; its answer is the raw
/// word itself.
pub fn ioctl(fd: UnsignedInt, request: UnsignedLong, arg: UnsignedLong) -> (r: Syscall)
    ensures
        r@.sysno == Sysno::Ioctl,
        r@.args == seq![fd as isize, request as isize, arg as isize],
        r@.result == ResultType::Long,
        forall|arch: Arch| #[trigger] syscall_number(Sysno::Ioctl, arch) is Some ==> r@.serves(arch),
{
    Syscall::new3(Sysno::Ioctl, ResultType::Long, fd as isize, request as isize, arg as isize)
}

/// Prepares the call changing the owner and group of the path at address
/// `filename` without following a final symbolic link.
///
/// Each argument travels as one register word, in order; its answer is read
/// with [`int_result`](crate::call::int_result).
pub fn lchown(filename: usize, user: UnsignedInt, group: UnsignedInt) -> (r: Syscall)
    ensures
        r@.sysno == Sysno::Lchown,
        r@.args == seq![filename as isize, user as isize, group as isize],
        r@.result == ResultType::Int,
        forall|arch: Arch| #[trigger] syscall_number(Sysno::Lchown, arch) is Some ==> r@.serves(arch),
{
    Syscall::new3(Sysno::Lchown, ResultType::Int, filename as isize, user as isize, group as isize)
}

/// Prepares the call making the path at address `newname` a new hard link to
/// the path at address `oldname`.
///
/// Each argument travels as one register word, in order; its answer is the raw
/// word itself.
pub fn link(oldname: usize, newname: usize) -> (r: Syscall)
    ensures
        r@.sysno == Sysno::Link,
        r@.args == seq![oldname as isize, newname as isize],
        r@.result == ResultType::Long,
        forall|arch: Arch| #[trigger] syscall_number(Sysno::Link, arch) is Some ==> r@.serves(arch),
{
    Syscall::new2(Sysno::Link, ResultType::Long, oldname as isize, newname as isize)
}

/// Prepares the call moving the file offset of `fd` by `offset` from the origin
/// `whence`.
///
/// Each argument travels as one register word, in order; its answer is the raw
/// word itself.
pub fn lseek(fd: UnsignedInt, offset: OffT, whence: UnsignedInt) -> (r: Syscall)
    ensures
        r@.sysno == Sysno::Lseek,
        r@.args == seq![fd as isize, offset as isize, whence as isize],
        r@.result == ResultType::Long,
        forall|arch: Arch| #[trigger] syscall_number(Sysno::Lseek, arch) is Some ==> r@.serves(arch),
{
    Syscall::new3(Sysno::Lseek, ResultType::Long, fd as isize, offset as isize, whence as isize)
}

/// Prepares the call creating the directory at the NUL-terminated path at
/// address `pathname`.
///
/// Each argument travels as one register word, in order; its answer is the raw
/// word itself.
pub fn mkdir(pathname: usize, mode: UModeT) -> (r: Syscall)
    ensures
        r@.sysno == Sysno::Mkdir,
        r@.args == seq![pathname as isize, mode as isize],
        r@.result == ResultType::Long,
        forall|arch: Arch| #[trigger] syscall_number(Sysno::Mkdir, arch) is Some ==> r@.serves(arch),
{
    Syscall::new2(Sysno::Mkdir, ResultType::Long, pathname as isize, mode as isize)
}

/// Prepares the call creating the file-system node at the NUL-terminated path
/// at address `pathname`.
///
/// Each argument travels as one register word, in order; its answer is the raw
/// word itself.
pub fn mknod(pathname: usize, mode: UModeT, dev: UnsignedInt) -> (r: Syscall)
    ensures
        r@.sysno == Sysno::Mknod,
        r@.args == seq![pathname as isize, mode as isize, dev as isize],
        r@.result == ResultType::Long,
        forall|arch: Arch| #[trigger] syscall_number(Sysno::Mknod, arch) is Some ==> r@.serves(arch),
{
    Syscall::new3(Sysno::Mknod, ResultType::Long, pathname as isize, mode as isize, dev as isize)
}

/// Prepares the call mounting the file system named at address `source` on the
/// path at address `target`.
///
/// Each argument travels as one register word, in order; its answer is the raw
/// word itself.
pub fn mount(source: usize, target: usize, filesystemtype: usize, mountflags: UnsignedLong, data: usize) -> (r: Syscall)
    ensures
        r@.sysno == Sysno::Mount,
        r@.args == seq![source as isize, target as isize, filesystemtype as isize, mountflags as isize, data as isize],
        r@.result == ResultType::Long,
        forall|arch: Arch| #[trigger] syscall_number(Sysno::Mount, arch) is Some ==> r@.serves(arch),
{
    Syscall::new5(Sysno::Mount, ResultType::Long, source as isize, target as isize, filesystemtype as isize, mountflags as isize, data as isize)
}

/// Prepares the Linux 1.0 call setting the length of the file open as `fd`,
/// with the Linux 1.0 `unsigned int` length.
///
/// Each argument travels as one register word, in order; its answer is read
/// with [`int_result`](crate::call::int_result).
pub fn ftruncate_1_0(fd: UnsignedInt, length: UnsignedInt) -> (r: LegacySyscall)
    ensures
        r@.sysno == linux_1_0::Sysno::Ftruncate,
        r@.args == seq![fd as isize, length as isize],
        r@.result == ResultType::Int,
        r@.serves(),
{
    LegacySyscall::new2(linux_1_0::Sysno::Ftruncate, ResultType::Int, fd as isize, length as isize)
}
} // verus!
