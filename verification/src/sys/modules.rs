//! Wrappers for kernel module calls.
use vstd::prelude::*;
use crate::arch::{Arch, Sysno, syscall_number};
use crate::call::{LegacySyscall, ResultType, Syscall};
use crate::linux_1_0;
use crate::ctypes::{UnsignedInt, UnsignedLong};

verus! {

/// Prepares the call reserving `size` bytes of kernel memory for the module
/// named at address `module_name`.
///
/// Each argument travels as one register word, in order; its answer is read
/// with [`unsigned_long_result`](crate::call::unsigned_long_result).
pub fn create_module(module_name: usize, size: UnsignedLong) -> (r: Syscall)
    ensures
        r@.sysno == Sysno::CreateModule,
        r@.args == seq![module_name as isize, size as isize],
        r@.result == ResultType::UnsignedLong,
        forall|arch: Arch| #[trigger] syscall_number(Sysno::CreateModule, arch) is Some ==> r@.serves(arch),
{
    Syscall::new2(Sysno::CreateModule, ResultType::UnsignedLong, module_name as isize, size as isize)
}

/// Prepares the call unloading the module named at address `module_name`.
///
/// Each argument travels as one register word, in order; its answer is read
/// with [`int_result`](crate::call::int_result).
pub fn delete_module(module_name: usize, flags: UnsignedInt) -> (r: Syscall)
    ensures
        r@.sysno == Sysno::DeleteModule,
        r@.args == seq![module_name as isize, flags as isize],
        r@.result == ResultType::Int,
        forall|arch: Arch| #[trigger] syscall_number(Sysno::DeleteModule, arch) is Some ==> r@.serves(arch),
{
    Syscall::new2(Sysno::DeleteModule, ResultType::Int, module_name as isize, flags as isize)
}

/// Prepares the call copying the exported kernel symbols to the table at
/// address `table` (counting them where `table` is 0).
///
/// Each argument travels as one register word, in order; its answer is read
/// with [`int_result`](crate::call::int_result).
pub fn get_kernel_syms(table: usize) -> (r: Syscall)
    ensures
        r@.sysno == Sysno::GetKernelSyms,
        r@.args == seq![table as isize],
        r@.result == ResultType::Int,
        forall|arch: Arch| #[trigger] syscall_number(Sysno::GetKernelSyms, arch) is Some ==> r@.serves(arch),
{
    Syscall::new1(Sysno::GetKernelSyms, ResultType::Int, table as isize)
}

/// Prepares the call loading the `len`-byte module image at address `umod` with
/// the parameter string at address `uargs`.
///
/// Each argument travels as one register word, in order; its answer is read
/// with [`int_result`](crate::call::int_result).
pub fn init_module(umod: usize, len: UnsignedLong, uargs: usize) -> (r: Syscall)
    ensures
        r@.sysno == Sysno::InitModule,
        r@.args == seq![umod as isize, len as isize, uargs as isize],
        r@.result == ResultType::Int,
        forall|arch: Arch| #[trigger] syscall_number(Sysno::InitModule, arch) is Some ==> r@.serves(arch),
{
    Syscall::new3(Sysno::InitModule, ResultType::Int, umod as isize, len as isize, uargs as isize)
}

/// Prepares the Linux 1.0 call loading the `codesize`-byte module code at
/// address `code` under the name at address `module_name`, with the `struct
/// mod_routines` at address `routines`.
///
/// Each argument travels as one register word, in order; its answer is read
/// with [`int_result`](crate::call::int_result).
pub fn init_module_1_0(module_name: usize, code: usize, codesize: UnsignedInt, routines: usize) -> (r: LegacySyscall)
    ensures
        r@.sysno == linux_1_0::Sysno::InitModule,
        r@.args == seq![module_name as isize, code as isize, codesize as isize, routines as isize],
        r@.result == ResultType::Int,
        r@.serves(),
{
    LegacySyscall::new4(linux_1_0::Sysno::InitModule, ResultType::Int, module_name as isize, code as isize, codesize as isize, routines as isize)
}
} // verus!
