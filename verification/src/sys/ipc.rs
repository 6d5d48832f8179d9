//! The System V IPC multiplexer and its call selectors.
use vstd::prelude::*;
use crate::arch::{Arch, Sysno, syscall_number};
use crate::call::{ResultType, Syscall};
use crate::ctypes::{Int, UnsignedInt};

verus! {

/// `ipc` selector for `semop`.
pub const SEMOP: UnsignedInt = 1;

/// `ipc` selector for `semget`.
pub const SEMGET: UnsignedInt = 2;

/// `ipc` selector for `semctl`.
pub const SEMCTL: UnsignedInt = 3;

/// `ipc` selector for `msgsnd`.
pub const MSGSND: UnsignedInt = 11;

/// `ipc` selector for `msgrcv`.
pub const MSGRCV: UnsignedInt = 12;

/// `ipc` selector for `msgget`.
pub const MSGGET: UnsignedInt = 13;

/// `ipc` selector for `msgctl`.
pub const MSGCTL: UnsignedInt = 14;

/// `ipc` selector for `shmat`.
pub const SHMAT: UnsignedInt = 21;

/// `ipc` selector for `shmdt`.
pub const SHMDT: UnsignedInt = 22;

/// `ipc` selector for `shmget`.
pub const SHMGET: UnsignedInt = 23;

/// `ipc` selector for `shmctl`.
pub const SHMCTL: UnsignedInt = 24;

/// Prepares the System V IPC call that selector `call` names, with the
/// integer arguments `first`, `second`, `third` and the address `ptr`.
///
/// Each argument travels as one register word, in order; its answer is the raw
/// word itself.
pub fn ipc(call: UnsignedInt, first: Int, second: Int, third: Int, ptr: usize) -> (r: Syscall)
    ensures
        r@.sysno == Sysno::Ipc,
        r@.args == seq![call as isize, first as isize, second as isize, third as isize, ptr as isize],
        r@.result == ResultType::Long,
        forall|arch: Arch| #[trigger] syscall_number(Sysno::Ipc, arch) is Some ==> r@.serves(arch),
{
    Syscall::new5(
        Sysno::Ipc,
        ResultType::Long,
        call as isize,
        first as isize,
        second as isize,
        third as isize,
        ptr as isize,
    )
}

} // verus!
