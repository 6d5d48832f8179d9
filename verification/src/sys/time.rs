//! Wrappers for clock and timer calls.
use vstd::prelude::*;
use crate::arch::{Arch, Sysno, syscall_number};
use crate::call::{ResultType, Syscall};
use crate::ctypes::{Int, UnsignedInt};

verus! {

/// Prepares the call reading (and, where its `modes` ask, tuning) the kernel
/// clock through the `struct timex` at address `txc_p`.
///
/// Each argument travels as one register word, in order; its answer is read
/// with [`int_result`](crate::call::int_result).
pub fn adjtimex(txc_p: usize) -> (r: Syscall)
    ensures
        r@.sysno == Sysno::Adjtimex,
        r@.args == seq![txc_p as isize],
        r@.result == ResultType::Int,
        forall|arch: Arch| #[trigger] syscall_number(Sysno::Adjtimex, arch) is Some ==> r@.serves(arch),
{
    Syscall::new1(Sysno::Adjtimex, ResultType::Int, txc_p as isize)
}

/// Prepares the call arming the alarm clock for `seconds` seconds (disarming it
/// where `seconds` is 0).
///
/// Each argument travels as one register word, in order; its answer is read
/// with [`unsigned_int_result`](crate::call::unsigned_int_result).
pub fn alarm(seconds: UnsignedInt) -> (r: Syscall)
    ensures
        r@.sysno == Sysno::Alarm,
        r@.args == seq![seconds as isize],
        r@.result == ResultType::UnsignedInt,
        forall|arch: Arch| #[trigger] syscall_number(Sysno::Alarm, arch) is Some ==> r@.serves(arch),
{
    Syscall::new1(Sysno::Alarm, ResultType::UnsignedInt, seconds as isize)
}

/// Prepares the call filling the `struct itimerval` at address `value` with the
/// interval timer `which`.
///
/// Each argument travels as one register word, in order; its answer is read
/// with [`int_result`](crate::call::int_result).
pub fn getitimer(which: Int, value: usize) -> (r: Syscall)
    ensures
        r@.sysno == Sysno::Getitimer,
        r@.args == seq![which as isize, value as isize],
        r@.result == ResultType::Int,
        forall|arch: Arch| #[trigger] syscall_number(Sysno::Getitimer, arch) is Some ==> r@.serves(arch),
{
    Syscall::new2(Sysno::Getitimer, ResultType::Int, which as isize, value as isize)
}

/// Prepares the call filling the `struct timeval` at address `tv` and the
/// `struct timezone` at address `tz` (each skipped where its address is 0).
///
/// Each argument travels as one register word, in order; its answer is read
/// with [`int_result`](crate::call::int_result).
pub fn gettimeofday(tv: usize, tz: usize) -> (r: Syscall)
    ensures
        r@.sysno == Sysno::Gettimeofday,
        r@.args == seq![tv as isize, tz as isize],
        r@.result == ResultType::Int,
        forall|arch: Arch| #[trigger] syscall_number(Sysno::Gettimeofday, arch) is Some ==> r@.serves(arch),
{
    Syscall::new2(Sysno::Gettimeofday, ResultType::Int, tv as isize, tz as isize)
}
} // verus!
