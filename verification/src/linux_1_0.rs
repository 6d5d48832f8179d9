//! The system call numbers of the Linux 1.0 x86 ABI that the legacy wrappers
//! of this crate use.
use vstd::prelude::*;
use crate::arch::{self, x86_number};

verus! {

/// A system call of the Linux 1.0 x86 ABI.
#[derive(Clone, Copy, Debug, PartialEq, Eq, Structural)]
pub enum Sysno {
    /// `fstatfs`, filling the Linux 1.0 `struct statfs`.
    Fstatfs,
    /// `ftruncate`, taking an `unsigned int` length.
    Ftruncate,
    /// `init_module`, in its four-argument Linux 1.0 form.
    InitModule,
    /// `newfstat`, filling the Linux 1.0 `struct new_stat`.
    Newfstat,
    /// `newlstat`, filling the Linux 1.0 `struct new_stat`.
    Newlstat,
}

/// The number of `s` in the Linux 1.0 x86 table.
pub open spec fn linux_1_0_number(s: Sysno) -> isize {
    match s {
        Sysno::Fstatfs => 100,
        Sysno::Ftruncate => 93,
        Sysno::InitModule => 128,
        Sysno::Newfstat => 108,
        Sysno::Newlstat => 107,
    }
}

/// The number of argument words that the Linux 1.0 entry of `s` reads.
pub open spec fn linux_1_0_arity(s: Sysno) -> nat {
    match s {
        Sysno::InitModule => 4,
        Sysno::Fstatfs | Sysno::Ftruncate | Sysno::Newfstat | Sysno::Newlstat => 2,
    }
}

/// The entry of the current x86 table that kept the number of `s`.
pub open spec fn current_entry(s: Sysno) -> arch::Sysno {
    match s {
        Sysno::Fstatfs => arch::Sysno::Fstatfs,
        Sysno::Ftruncate => arch::Sysno::Ftruncate,
        Sysno::InitModule => arch::Sysno::InitModule,
        Sysno::Newfstat => arch::Sysno::Newfstat,
        Sysno::Newlstat => arch::Sysno::Newlstat,
    }
}

impl Sysno {
    /// The number that selects this system call on a Linux 1.0 x86 kernel.
    pub fn number(self) -> (r: isize)
        ensures
            r == linux_1_0_number(self),
    {
        match self {
            Sysno::Fstatfs => 100,
            Sysno::Ftruncate => 93,
            Sysno::InitModule => 128,
            Sysno::Newfstat => 108,
            Sysno::Newlstat => 107,
        }
    }
}

/// The Linux 1.0 x86 table as its `include/linux/unistd.h` lists it, by
/// number: the legacy call that number `n` selects.
pub open spec fn linux_1_0_entry(n: isize) -> Option<Sysno> {
    match n {
        93 => Some(Sysno::Ftruncate),
        100 => Some(Sysno::Fstatfs),
        107 => Some(Sysno::Newlstat),
        108 => Some(Sysno::Newfstat),
        128 => Some(Sysno::InitModule),
        _ => None,
    }
}

/// The legacy numbers are those of the Linux 1.0 table: `s` has number `n`
/// exactly when that table lists `s` under `n`.
pub proof fn lemma_numbers_match_table(s: Sysno, n: isize)
    ensures
        linux_1_0_number(s) == n <==> linux_1_0_entry(n) == Some(s),
{
}

/// Current x86 kernels keep the Linux 1.0 number of every legacy call: the
/// number of `s` in the Linux 1.0 table is the number of its counterpart in the
/// current x86 table.
pub proof fn lemma_numbers_kept_on_x86(s: Sysno)
    ensures
        x86_number(current_entry(s)) == Some(linux_1_0_number(s)),
{
}

} // verus!
