//! Wrappers for address-space and I/O-privilege calls.
use vstd::prelude::*;
use crate::arch::{Arch, Sysno, syscall_number};
use crate::call::{ResultType, Syscall};
use crate::ctypes::{Int, SizeT, UnsignedInt, UnsignedLong};

verus! {

/// Prepares the call moving the program break to `addr`.
///
/// Each argument travels as one register word, in order; its answer is read
/// with [`unsigned_long_result`](crate::call::unsigned_long_result).
pub fn brk(addr: UnsignedLong) -> (r: Syscall)
    ensures
        r@.sysno == Sysno::Brk,
        r@.args == seq![addr as isize],
        r@.result == ResultType::UnsignedLong,
        forall|arch: Arch| #[trigger] syscall_number(Sysno::Brk, arch) is Some ==> r@.serves(arch),
{
    Syscall::new1(Sysno::Brk, ResultType::UnsignedLong, addr as isize)
}

/// Prepares the call unmapping the `len` bytes from `addr`.
///
/// Each argument travels as one register word, in order; its answer is read
/// with [`int_result`](crate::call::int_result).
pub fn munmap(addr: UnsignedLong, len: SizeT) -> (r: Syscall)
    ensures
        r@.sysno == Sysno::Munmap,
        r@.args == seq![addr as isize, len as isize],
        r@.result == ResultType::Int,
        forall|arch: Arch| #[trigger] syscall_number(Sysno::Munmap, arch) is Some ==> r@.serves(arch),
{
    Syscall::new2(Sysno::Munmap, ResultType::Int, addr as isize, len as isize)
}

/// Prepares the call running the local descriptor table operation `func` on the
/// `bytecount` bytes at address `ptr`.
///
/// Each argument travels as one register word, in order; its answer is read
/// with [`int_result`](crate::call::int_result).
pub fn modify_ldt(func: Int, ptr: usize, bytecount: UnsignedLong) -> (r: Syscall)
    ensures
        r@.sysno == Sysno::ModifyLdt,
        r@.args == seq![func as isize, ptr as isize, bytecount as isize],
        r@.result == ResultType::Int,
        forall|arch: Arch| #[trigger] syscall_number(Sysno::ModifyLdt, arch) is Some ==> r@.serves(arch),
{
    Syscall::new3(Sysno::ModifyLdt, ResultType::Int, func as isize, ptr as isize, bytecount as isize)
}

/// Prepares the call setting the I/O privilege level to `level`.
///
/// Each argument travels as one register word, in order; its answer is read
/// with [`int_result`](crate::call::int_result).
pub fn iopl(level: UnsignedInt) -> (r: Syscall)
    ensures
        r@.sysno == Sysno::Iopl,
        r@.args == seq![level as isize],
        r@.result == ResultType::Int,
        forall|arch: Arch| #[trigger] syscall_number(Sysno::Iopl, arch) is Some ==> r@.serves(arch),
{
    Syscall::new1(Sysno::Iopl, ResultType::Int, level as isize)
}

/// Prepares the call granting (where `turn_on`) or revoking the caller's
/// access to the `num` I/O ports from port `from`.
///
/// `turn_on` travels as the word 1 or 0; its answer is read with
/// [`int_result`](crate::call::int_result).
pub fn ioperm(from: UnsignedLong, num: UnsignedLong, turn_on: bool) -> (r: Syscall)
    ensures
        r@.sysno == Sysno::Ioperm,
        r@.args == seq![from as isize, num as isize, if turn_on { 1isize } else { 0isize }],
        r@.result == ResultType::Int,
        forall|arch: Arch| #[trigger] syscall_number(Sysno::Ioperm, arch) is Some ==> r@.serves(arch),
{
    let turn_on: isize = if turn_on {
        1
    } else {
        0
    };
    Syscall::new3(Sysno::Ioperm, ResultType::Int, from as isize, num as isize, turn_on)
}

/// The argument block of the one-argument x86 `mmap` entry (`old_mmap`): the
/// six arguments of `mmap`, each an `unsigned long`, in their usual order.
#[derive(Clone, Copy, Debug, PartialEq, Eq, Structural)]
pub struct MmapArgs {
    pub addr: UnsignedLong,
    pub len: UnsignedLong,
    pub prot: UnsignedLong,
    pub flags: UnsignedLong,
    pub fd: UnsignedLong,
    pub offset: UnsignedLong,
}

/// The argument words of `mmap` where each argument travels in a register of
/// its own (aarch64 and x86_64).
pub open spec fn mmap_words(
    addr: usize,
    len: SizeT,
    prot: UnsignedLong,
    flags: UnsignedLong,
    fd: UnsignedInt,
    offset: UnsignedLong,
) -> Seq<isize> {
    seq![addr as isize, len as isize, prot as isize, flags as isize, fd as isize, offset as isize]
}

/// The argument block of `mmap` where the arguments travel in memory (x86).
pub open spec fn mmap_block(
    addr: usize,
    len: SizeT,
    prot: UnsignedLong,
    flags: UnsignedLong,
    fd: UnsignedInt,
    offset: UnsignedLong,
) -> MmapArgs {
    MmapArgs {
        addr: addr as UnsignedLong,
        len: len as UnsignedLong,
        prot,
        flags,
        fd: fd as UnsignedLong,
        offset,
    }
}

/// The words of an argument block, in the order the kernel reads them.
pub open spec fn block_words(b: MmapArgs) -> Seq<isize> {
    seq![
        b.addr as isize,
        b.len as isize,
        b.prot as isize,
        b.flags as isize,
        b.fd as isize,
        b.offset as isize,
    ]
}

/// Prepares the call mapping `len` bytes of file `fd` from `offset` with
/// protection `prot` and mapping flags `flags`, near the hint `addr`, where
/// each argument travels in a register of its own. This is the form of
/// aarch64 and x86_64; the x86 entry reads an argument block instead (see
/// [`mmap_form`]).
///
/// Its answer is read with
/// [`unsigned_long_result`](crate::call::unsigned_long_result): the mapped
/// address, or a `-errno` word.
pub fn mmap(
    addr: usize,
    len: SizeT,
    prot: UnsignedLong,
    flags: UnsignedLong,
    fd: UnsignedInt,
    offset: UnsignedLong,
) -> (r: Syscall)
    ensures
        r@.sysno == Sysno::Mmap,
        r@.args == mmap_words(addr, len, prot, flags, fd, offset),
        r@.args == seq![
            addr as isize,
            len as isize,
            prot as isize,
            flags as isize,
            fd as isize,
            offset as isize,
        ],
        r@.result == ResultType::UnsignedLong,
        r@.serves(Arch::Aarch64),
        r@.serves(Arch::X86_64),
        !r@.serves(Arch::X86),
{
    Syscall::new6(
        Sysno::Mmap,
        ResultType::UnsignedLong,
        addr as isize,
        len as isize,
        prot as isize,
        flags as isize,
        fd as isize,
        offset as isize,
    )
}

/// Builds the argument block that the x86 `mmap` entry reads from memory, for
/// the same arguments as [`mmap`].
pub fn mmap_args(
    addr: usize,
    len: SizeT,
    prot: UnsignedLong,
    flags: UnsignedLong,
    fd: UnsignedInt,
    offset: UnsignedLong,
) -> (r: MmapArgs)
    ensures
        r == mmap_block(addr, len, prot, flags, fd, offset),
        r.addr == addr,
        r.len == len,
        r.prot == prot,
        r.flags == flags,
        r.fd == fd,
        r.offset == offset,
{
    MmapArgs {
        addr: addr as UnsignedLong,
        len: len as UnsignedLong,
        prot,
        flags,
        fd: fd as UnsignedLong,
        offset,
    }
}

/// Prepares the x86 `mmap` call whose one argument is the address `args` of an
/// argument block built by [`mmap_args`].
///
/// Its answer is read with
/// [`unsigned_long_result`](crate::call::unsigned_long_result).
pub fn old_mmap(args: usize) -> (r: Syscall)
    ensures
        r@.sysno == Sysno::Mmap,
        r@.args == seq![args as isize],
        r@.result == ResultType::UnsignedLong,
        r@.serves(Arch::X86),
{
    Syscall::new1(Sysno::Mmap, ResultType::UnsignedLong, args as isize)
}

/// Both ways of passing the arguments of `mmap` hand the kernel the same six
/// words: the argument block holds, field by field, the register words of the
/// direct call.
pub proof fn lemma_mmap_block_matches_registers(
    addr: usize,
    len: SizeT,
    prot: UnsignedLong,
    flags: UnsignedLong,
    fd: UnsignedInt,
    offset: UnsignedLong,
)
    ensures
        block_words(mmap_block(addr, len, prot, flags, fd, offset)) == mmap_words(
            addr,
            len,
            prot,
            flags,
            fd,
            offset,
        ),
{
    assert(((fd as usize) as isize) == (fd as isize)) by (bit_vector);
}

/// The way `mmap` hands its arguments to the kernel of an architecture.
pub enum MmapForm {
    /// One register per argument: the call, ready to be issued.
    Registers(Syscall),
    /// An argument block in memory, whose address [`old_mmap`] then passes.
    Block(MmapArgs),
}

/// Chooses how `mmap` passes its arguments on `arch`: an argument block on
/// x86, whose entry reads one word, and six registers elsewhere.
pub fn mmap_form(
    arch: Arch,
    addr: usize,
    len: SizeT,
    prot: UnsignedLong,
    flags: UnsignedLong,
    fd: UnsignedInt,
    offset: UnsignedLong,
) -> (r: MmapForm)
    ensures
        arch == Arch::X86 <==> r is Block,
        r matches MmapForm::Block(b) ==> b == mmap_block(addr, len, prot, flags, fd, offset),
        r matches MmapForm::Registers(c) ==> {
            &&& c@.sysno == Sysno::Mmap
            &&& c@.args == mmap_words(addr, len, prot, flags, fd, offset)
            &&& c@.result == ResultType::UnsignedLong
            &&& c@.serves(arch)
        },
{
    match arch {
        Arch::X86 => MmapForm::Block(mmap_args(addr, len, prot, flags, fd, offset)),
        _ => MmapForm::Registers(mmap(addr, len, prot, flags, fd, offset)),
    }
}

/// Each argument of `mmap` reaches the kernel unchanged, in either form: the
/// register words read back as the arguments, and the argument block holds
/// them field by field.
pub proof fn lemma_mmap_arguments_unchanged(
    addr: usize,
    len: SizeT,
    prot: UnsignedLong,
    flags: UnsignedLong,
    fd: UnsignedInt,
    offset: UnsignedLong,
)
    ensures
        mmap_words(addr, len, prot, flags, fd, offset).len() == 6,
        mmap_words(addr, len, prot, flags, fd, offset)[0] as usize == addr,
        mmap_words(addr, len, prot, flags, fd, offset)[1] as usize == len,
        mmap_words(addr, len, prot, flags, fd, offset)[2] as usize == prot,
        mmap_words(addr, len, prot, flags, fd, offset)[3] as usize == flags,
        mmap_words(addr, len, prot, flags, fd, offset)[4] as u32 == fd,
        mmap_words(addr, len, prot, flags, fd, offset)[5] as usize == offset,
        mmap_block(addr, len, prot, flags, fd, offset).addr == addr,
        mmap_block(addr, len, prot, flags, fd, offset).len == len,
        mmap_block(addr, len, prot, flags, fd, offset).prot == prot,
        mmap_block(addr, len, prot, flags, fd, offset).flags == flags,
        mmap_block(addr, len, prot, flags, fd, offset).fd == fd,
        mmap_block(addr, len, prot, flags, fd, offset).offset == offset,
{
    assert((addr as isize) as usize == addr) by (bit_vector);
    assert((len as isize) as usize == len) by (bit_vector);
    assert((prot as isize) as usize == prot) by (bit_vector);
    assert((flags as isize) as usize == flags) by (bit_vector);
    assert((fd as isize) as u32 == fd) by (bit_vector);
    assert((offset as isize) as usize == offset) by (bit_vector);
    assert((fd as usize) as u32 == fd) by (bit_vector);
}

} // verus!
