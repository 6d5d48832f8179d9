//! System call numbers of the architectures this crate targets.
use vstd::prelude::*;

verus! {

/// An architecture whose Linux system call table this crate knows.
#[derive(Clone, Copy, Debug, PartialEq, Eq, Structural)]
pub enum Arch {
    /// 32-bit x86 (`int 0x80`, `syscall_32.tbl`).
    X86,
    /// 64-bit Arm (the generic table of `asm-generic/unistd.h`).
    Aarch64,
    /// 64-bit x86 (`syscall_64.tbl`).
    X86_64,
}

/// A system call that the wrappers of this crate issue.
#[derive(Clone, Copy, Debug, PartialEq, Eq, Structural)]
pub enum Sysno {
    /// `access`.
    Access,
    /// `acct`.
    Acct,
    /// `adjtimex`.
    Adjtimex,
    /// `alarm`.
    Alarm,
    /// `brk`.
    Brk,
    /// `chdir`.
    Chdir,
    /// `chmod`.
    Chmod,
    /// `chroot`.
    Chroot,
    /// `close`.
    Close,
    /// `creat`.
    Creat,
    /// `create_module`.
    CreateModule,
    /// `delete_module`.
    DeleteModule,
    /// `dup`.
    Dup,
    /// `dup2`.
    Dup2,
    /// `execve`.
    Execve,
    /// `exit`.
    Exit,
    /// `fchdir`.
    Fchdir,
    /// `fchmod`.
    Fchmod,
    /// `fchown` (the 16-bit `fchown16` entry on x86).
    Fchown,
    /// `fcntl`.
    Fcntl,
    /// `fork`.
    Fork,
    /// The legacy `fstat` entry that fills `struct __old_kernel_stat`.
    Fstat,
    /// `fstatfs`.
    Fstatfs,
    /// `fsync`.
    Fsync,
    /// `ftruncate`.
    Ftruncate,
    /// `get_kernel_syms`.
    GetKernelSyms,
    /// `getegid` (the 16-bit `getegid16` entry on x86).
    Getegid,
    /// `geteuid` (the 16-bit `geteuid16` entry on x86).
    Geteuid,
    /// `getgid` (the 16-bit `getgid16` entry on x86).
    Getgid,
    /// `getgroups` (the 16-bit `getgroups16` entry on x86).
    Getgroups,
    /// `getitimer`.
    Getitimer,
    /// `getpgid`.
    Getpgid,
    /// `getpgrp`.
    Getpgrp,
    /// `getpid`.
    Getpid,
    /// `getppid`.
    Getppid,
    /// `getpriority`.
    Getpriority,
    /// `getrlimit` (the old `getrlimit` entry on x86).
    Getrlimit,
    /// `getrusage`.
    Getrusage,
    /// `gettimeofday`.
    Gettimeofday,
    /// `getuid` (the 16-bit `getuid16` entry on x86).
    Getuid,
    /// `idle`.
    Idle,
    /// `init_module`.
    InitModule,
    /// `ioctl`.
    Ioctl,
    /// `ioperm`.
    Ioperm,
    /// `iopl`.
    Iopl,
    /// `ipc`, the System V IPC multiplexer.
    Ipc,
    /// `kill`.
    Kill,
    /// `lchown` (the 16-bit `lchown16` entry on x86).
    Lchown,
    /// `link`.
    Link,
    /// `lseek`.
    Lseek,
    /// `mkdir`.
    Mkdir,
    /// `mknod`.
    Mknod,
    /// `mmap` (the one-argument `old_mmap` entry on x86).
    Mmap,
    /// `modify_ldt`.
    ModifyLdt,
    /// `mount`.
    Mount,
    /// `munmap`.
    Munmap,
    /// `newfstat` (`fstat` on aarch64 and x86_64).
    Newfstat,
    /// `newlstat` (`lstat` on x86_64).
    Newlstat,
    /// `newstat` (`stat` on x86_64).
    Newstat,
    /// `oldlstat`, the legacy `lstat` entry.
    Oldlstat,
}

/// The number of `s` in the x86 system call table, `None` where that table
/// has no entry for it.
pub open spec fn x86_number(s: Sysno) -> Option<isize> {
    match s {
        Sysno::Access => Some(33),
        Sysno::Acct => Some(51),
        Sysno::Adjtimex => Some(124),
        Sysno::Alarm => Some(27),
        Sysno::Brk => Some(45),
        Sysno::Chdir => Some(12),
        Sysno::Chmod => Some(15),
        Sysno::Chroot => Some(61),
        Sysno::Close => Some(6),
        Sysno::Creat => Some(8),
        Sysno::CreateModule => Some(127),
        Sysno::DeleteModule => Some(129),
        Sysno::Dup => Some(41),
        Sysno::Dup2 => Some(63),
        Sysno::Execve => Some(11),
        Sysno::Exit => Some(1),
        Sysno::Fchdir => Some(133),
        Sysno::Fchmod => Some(94),
        Sysno::Fchown => Some(95),
        Sysno::Fcntl => Some(55),
        Sysno::Fork => Some(2),
        Sysno::Fstat => Some(28),
        Sysno::Fstatfs => Some(100),
        Sysno::Fsync => Some(118),
        Sysno::Ftruncate => Some(93),
        Sysno::GetKernelSyms => Some(130),
        Sysno::Getegid => Some(50),
        Sysno::Geteuid => Some(49),
        Sysno::Getgid => Some(47),
        Sysno::Getgroups => Some(80),
        Sysno::Getitimer => Some(105),
        Sysno::Getpgid => Some(132),
        Sysno::Getpgrp => Some(65),
        Sysno::Getpid => Some(20),
        Sysno::Getppid => Some(64),
        Sysno::Getpriority => Some(96),
        Sysno::Getrlimit => Some(76),
        Sysno::Getrusage => Some(77),
        Sysno::Gettimeofday => Some(78),
        Sysno::Getuid => Some(24),
        Sysno::Idle => Some(112),
        Sysno::InitModule => Some(128),
        Sysno::Ioctl => Some(54),
        Sysno::Ioperm => Some(101),
        Sysno::Iopl => Some(110),
        Sysno::Ipc => Some(117),
        Sysno::Kill => Some(37),
        Sysno::Lchown => Some(16),
        Sysno::Link => Some(9),
        Sysno::Lseek => Some(19),
        Sysno::Mkdir => Some(39),
        Sysno::Mknod => Some(14),
        Sysno::Mmap => Some(90),
        Sysno::ModifyLdt => Some(123),
        Sysno::Mount => Some(21),
        Sysno::Munmap => Some(91),
        Sysno::Newfstat => Some(108),
        Sysno::Newlstat => Some(107),
        Sysno::Newstat => Some(106),
        Sysno::Oldlstat => Some(84),
    }
}

/// The number of `s` in the aarch64 system call table, `None` where that table
/// has no entry for it.
pub open spec fn aarch64_number(s: Sysno) -> Option<isize> {
    match s {
        Sysno::Access => None,
        Sysno::Acct => Some(89),
        Sysno::Adjtimex => Some(171),
        Sysno::Alarm => None,
        Sysno::Brk => Some(214),
        Sysno::Chdir => Some(49),
        Sysno::Chmod => None,
        Sysno::Chroot => Some(51),
        Sysno::Close => Some(57),
        Sysno::Creat => None,
        Sysno::CreateModule => None,
        Sysno::DeleteModule => Some(106),
        Sysno::Dup => Some(23),
        Sysno::Dup2 => None,
        Sysno::Execve => Some(221),
        Sysno::Exit => Some(93),
        Sysno::Fchdir => Some(50),
        Sysno::Fchmod => Some(52),
        Sysno::Fchown => Some(55),
        Sysno::Fcntl => Some(25),
        Sysno::Fork => None,
        Sysno::Fstat => None,
        Sysno::Fstatfs => Some(44),
        Sysno::Fsync => Some(82),
        Sysno::Ftruncate => Some(46),
        Sysno::GetKernelSyms => None,
        Sysno::Getegid => Some(177),
        Sysno::Geteuid => Some(175),
        Sysno::Getgid => Some(176),
        Sysno::Getgroups => Some(158),
        Sysno::Getitimer => Some(102),
        Sysno::Getpgid => Some(155),
        Sysno::Getpgrp => None,
        Sysno::Getpid => Some(172),
        Sysno::Getppid => Some(173),
        Sysno::Getpriority => Some(141),
        Sysno::Getrlimit => Some(163),
        Sysno::Getrusage => Some(165),
        Sysno::Gettimeofday => Some(169),
        Sysno::Getuid => Some(174),
        Sysno::Idle => None,
        Sysno::InitModule => Some(105),
        Sysno::Ioctl => Some(29),
        Sysno::Ioperm => None,
        Sysno::Iopl => None,
        Sysno::Ipc => None,
        Sysno::Kill => Some(129),
        Sysno::Lchown => None,
        Sysno::Link => None,
        Sysno::Lseek => Some(62),
        Sysno::Mkdir => None,
        Sysno::Mknod => None,
        Sysno::Mmap => Some(222),
        Sysno::ModifyLdt => None,
        Sysno::Mount => Some(40),
        Sysno::Munmap => Some(215),
        Sysno::Newfstat => Some(80),
        Sysno::Newlstat => None,
        Sysno::Newstat => None,
        Sysno::Oldlstat => None,
    }
}

/// The number of `s` in the x86_64 system call table, `None` where that table
/// has no entry for it.
pub open spec fn x86_64_number(s: Sysno) -> Option<isize> {
    match s {
        Sysno::Access => Some(21),
        Sysno::Acct => Some(163),
        Sysno::Adjtimex => Some(159),
        Sysno::Alarm => Some(37),
        Sysno::Brk => Some(12),
        Sysno::Chdir => Some(80),
        Sysno::Chmod => Some(90),
        Sysno::Chroot => Some(161),
        Sysno::Close => Some(3),
        Sysno::Creat => Some(85),
        Sysno::CreateModule => Some(174),
        Sysno::DeleteModule => Some(176),
        Sysno::Dup => Some(32),
        Sysno::Dup2 => Some(33),
        Sysno::Execve => Some(59),
        Sysno::Exit => Some(60),
        Sysno::Fchdir => Some(81),
        Sysno::Fchmod => Some(91),
        Sysno::Fchown => Some(93),
        Sysno::Fcntl => Some(72),
        Sysno::Fork => Some(57),
        Sysno::Fstat => None,
        Sysno::Fstatfs => Some(138),
        Sysno::Fsync => Some(74),
        Sysno::Ftruncate => Some(77),
        Sysno::GetKernelSyms => Some(177),
        Sysno::Getegid => Some(108),
        Sysno::Geteuid => Some(107),
        Sysno::Getgid => Some(104),
        Sysno::Getgroups => Some(115),
        Sysno::Getitimer => Some(36),
        Sysno::Getpgid => Some(121),
        Sysno::Getpgrp => Some(111),
        Sysno::Getpid => Some(39),
        Sysno::Getppid => Some(110),
        Sysno::Getpriority => Some(140),
        Sysno::Getrlimit => Some(97),
        Sysno::Getrusage => Some(98),
        Sysno::Gettimeofday => Some(96),
        Sysno::Getuid => Some(102),
        Sysno::Idle => None,
        Sysno::InitModule => Some(175),
        Sysno::Ioctl => Some(16),
        Sysno::Ioperm => Some(173),
        Sysno::Iopl => Some(172),
        Sysno::Ipc => None,
        Sysno::Kill => Some(62),
        Sysno::Lchown => Some(94),
        Sysno::Link => Some(86),
        Sysno::Lseek => Some(8),
        Sysno::Mkdir => Some(83),
        Sysno::Mknod => Some(133),
        Sysno::Mmap => Some(9),
        Sysno::ModifyLdt => Some(154),
        Sysno::Mount => Some(165),
        Sysno::Munmap => Some(11),
        Sysno::Newfstat => Some(5),
        Sysno::Newlstat => Some(6),
        Sysno::Newstat => Some(4),
        Sysno::Oldlstat => None,
    }
}
/// The number of `s` in the system call table of `arch`, `None` where that
/// table has no entry for it.
pub open spec fn syscall_number(s: Sysno, arch: Arch) -> Option<isize> {
    match arch {
        Arch::X86 => x86_number(s),
        Arch::Aarch64 => aarch64_number(s),
        Arch::X86_64 => x86_64_number(s),
    }
}

/// The number of argument words that the entry of `s` reads on `arch`.
///
/// Every entry reads the same number of words on every architecture but
/// `mmap`: the x86 entry (`old_mmap`) reads one word, the address of an
/// argument block, where the others read the six arguments themselves.
pub open spec fn arity(s: Sysno, arch: Arch) -> nat {
    match s {
        Sysno::Fork
        | Sysno::Getegid
        | Sysno::Geteuid
        | Sysno::Getgid
        | Sysno::Getpgrp
        | Sysno::Getpid
        | Sysno::Getppid
        | Sysno::Getuid
        | Sysno::Idle => 0,
        Sysno::Acct
        | Sysno::Adjtimex
        | Sysno::Alarm
        | Sysno::Brk
        | Sysno::Chdir
        | Sysno::Chroot
        | Sysno::Close
        | Sysno::Dup
        | Sysno::Exit
        | Sysno::Fchdir
        | Sysno::Fsync
        | Sysno::GetKernelSyms
        | Sysno::Getpgid
        | Sysno::Iopl => 1,
        Sysno::Access
        | Sysno::Chmod
        | Sysno::Creat
        | Sysno::CreateModule
        | Sysno::DeleteModule
        | Sysno::Dup2
        | Sysno::Fchmod
        | Sysno::Fstat
        | Sysno::Fstatfs
        | Sysno::Ftruncate
        | Sysno::Getgroups
        | Sysno::Getitimer
        | Sysno::Getpriority
        | Sysno::Getrlimit
        | Sysno::Getrusage
        | Sysno::Gettimeofday
        | Sysno::Kill
        | Sysno::Link
        | Sysno::Mkdir
        | Sysno::Munmap
        | Sysno::Newfstat
        | Sysno::Newlstat
        | Sysno::Newstat
        | Sysno::Oldlstat => 2,
        Sysno::Execve
        | Sysno::Fchown
        | Sysno::Fcntl
        | Sysno::InitModule
        | Sysno::Ioctl
        | Sysno::Ioperm
        | Sysno::Lchown
        | Sysno::Lseek
        | Sysno::Mknod
        | Sysno::ModifyLdt => 3,
        Sysno::Ipc
        | Sysno::Mount => 5,
        Sysno::Mmap => if arch == Arch::X86 {
            1
        } else {
            6
        },
    }
}

impl Sysno {
    /// The number that selects this system call on `arch`, or `None` where the
    /// kernel of `arch` has no such entry.
    pub fn number(self, arch: Arch) -> (r: Option<isize>)
        ensures
            r == syscall_number(self, arch),
    {
        match arch {
            Arch::X86 => self.x86_number(),
            Arch::Aarch64 => self.aarch64_number(),
            Arch::X86_64 => self.x86_64_number(),
        }
    }

    fn x86_number(self) -> (r: Option<isize>)
        ensures
            r == x86_number(self),
    {
        match self {
            Sysno::Access => Some(33),
            Sysno::Acct => Some(51),
            Sysno::Adjtimex => Some(124),
            Sysno::Alarm => Some(27),
            Sysno::Brk => Some(45),
            Sysno::Chdir => Some(12),
            Sysno::Chmod => Some(15),
            Sysno::Chroot => Some(61),
            Sysno::Close => Some(6),
            Sysno::Creat => Some(8),
            Sysno::CreateModule => Some(127),
            Sysno::DeleteModule => Some(129),
            Sysno::Dup => Some(41),
            Sysno::Dup2 => Some(63),
            Sysno::Execve => Some(11),
            Sysno::Exit => Some(1),
            Sysno::Fchdir => Some(133),
            Sysno::Fchmod => Some(94),
            Sysno::Fchown => Some(95),
            Sysno::Fcntl => Some(55),
            Sysno::Fork => Some(2),
            Sysno::Fstat => Some(28),
            Sysno::Fstatfs => Some(100),
            Sysno::Fsync => Some(118),
            Sysno::Ftruncate => Some(93),
            Sysno::GetKernelSyms => Some(130),
            Sysno::Getegid => Some(50),
            Sysno::Geteuid => Some(49),
            Sysno::Getgid => Some(47),
            Sysno::Getgroups => Some(80),
            Sysno::Getitimer => Some(105),
            Sysno::Getpgid => Some(132),
            Sysno::Getpgrp => Some(65),
            Sysno::Getpid => Some(20),
            Sysno::Getppid => Some(64),
            Sysno::Getpriority => Some(96),
            Sysno::Getrlimit => Some(76),
            Sysno::Getrusage => Some(77),
            Sysno::Gettimeofday => Some(78),
            Sysno::Getuid => Some(24),
            Sysno::Idle => Some(112),
            Sysno::InitModule => Some(128),
            Sysno::Ioctl => Some(54),
            Sysno::Ioperm => Some(101),
            Sysno::Iopl => Some(110),
            Sysno::Ipc => Some(117),
            Sysno::Kill => Some(37),
            Sysno::Lchown => Some(16),
            Sysno::Link => Some(9),
            Sysno::Lseek => Some(19),
            Sysno::Mkdir => Some(39),
            Sysno::Mknod => Some(14),
            Sysno::Mmap => Some(90),
            Sysno::ModifyLdt => Some(123),
            Sysno::Mount => Some(21),
            Sysno::Munmap => Some(91),
            Sysno::Newfstat => Some(108),
            Sysno::Newlstat => Some(107),
            Sysno::Newstat => Some(106),
            Sysno::Oldlstat => Some(84),
        }
    }

    fn aarch64_number(self) -> (r: Option<isize>)
        ensures
            r == aarch64_number(self),
    {
        match self {
            Sysno::Access => None,
            Sysno::Acct => Some(89),
            Sysno::Adjtimex => Some(171),
            Sysno::Alarm => None,
            Sysno::Brk => Some(214),
            Sysno::Chdir => Some(49),
            Sysno::Chmod => None,
            Sysno::Chroot => Some(51),
            Sysno::Close => Some(57),
            Sysno::Creat => None,
            Sysno::CreateModule => None,
            Sysno::DeleteModule => Some(106),
            Sysno::Dup => Some(23),
            Sysno::Dup2 => None,
            Sysno::Execve => Some(221),
            Sysno::Exit => Some(93),
            Sysno::Fchdir => Some(50),
            Sysno::Fchmod => Some(52),
            Sysno::Fchown => Some(55),
            Sysno::Fcntl => Some(25),
            Sysno::Fork => None,
            Sysno::Fstat => None,
            Sysno::Fstatfs => Some(44),
            Sysno::Fsync => Some(82),
            Sysno::Ftruncate => Some(46),
            Sysno::GetKernelSyms => None,
            Sysno::Getegid => Some(177),
            Sysno::Geteuid => Some(175),
            Sysno::Getgid => Some(176),
            Sysno::Getgroups => Some(158),
            Sysno::Getitimer => Some(102),
            Sysno::Getpgid => Some(155),
            Sysno::Getpgrp => None,
            Sysno::Getpid => Some(172),
            Sysno::Getppid => Some(173),
            Sysno::Getpriority => Some(141),
            Sysno::Getrlimit => Some(163),
            Sysno::Getrusage => Some(165),
            Sysno::Gettimeofday => Some(169),
            Sysno::Getuid => Some(174),
            Sysno::Idle => None,
            Sysno::InitModule => Some(105),
            Sysno::Ioctl => Some(29),
            Sysno::Ioperm => None,
            Sysno::Iopl => None,
            Sysno::Ipc => None,
            Sysno::Kill => Some(129),
            Sysno::Lchown => None,
            Sysno::Link => None,
            Sysno::Lseek => Some(62),
            Sysno::Mkdir => None,
            Sysno::Mknod => None,
            Sysno::Mmap => Some(222),
            Sysno::ModifyLdt => None,
            Sysno::Mount => Some(40),
            Sysno::Munmap => Some(215),
            Sysno::Newfstat => Some(80),
            Sysno::Newlstat => None,
            Sysno::Newstat => None,
            Sysno::Oldlstat => None,
        }
    }

    fn x86_64_number(self) -> (r: Option<isize>)
        ensures
            r == x86_64_number(self),
    {
        match self {
            Sysno::Access => Some(21),
            Sysno::Acct => Some(163),
            Sysno::Adjtimex => Some(159),
            Sysno::Alarm => Some(37),
            Sysno::Brk => Some(12),
            Sysno::Chdir => Some(80),
            Sysno::Chmod => Some(90),
            Sysno::Chroot => Some(161),
            Sysno::Close => Some(3),
            Sysno::Creat => Some(85),
            Sysno::CreateModule => Some(174),
            Sysno::DeleteModule => Some(176),
            Sysno::Dup => Some(32),
            Sysno::Dup2 => Some(33),
            Sysno::Execve => Some(59),
            Sysno::Exit => Some(60),
            Sysno::Fchdir => Some(81),
            Sysno::Fchmod => Some(91),
            Sysno::Fchown => Some(93),
            Sysno::Fcntl => Some(72),
            Sysno::Fork => Some(57),
            Sysno::Fstat => None,
            Sysno::Fstatfs => Some(138),
            Sysno::Fsync => Some(74),
            Sysno::Ftruncate => Some(77),
            Sysno::GetKernelSyms => Some(177),
            Sysno::Getegid => Some(108),
            Sysno::Geteuid => Some(107),
            Sysno::Getgid => Some(104),
            Sysno::Getgroups => Some(115),
            Sysno::Getitimer => Some(36),
            Sysno::Getpgid => Some(121),
            Sysno::Getpgrp => Some(111),
            Sysno::Getpid => Some(39),
            Sysno::Getppid => Some(110),
            Sysno::Getpriority => Some(140),
            Sysno::Getrlimit => Some(97),
            Sysno::Getrusage => Some(98),
            Sysno::Gettimeofday => Some(96),
            Sysno::Getuid => Some(102),
            Sysno::Idle => None,
            Sysno::InitModule => Some(175),
            Sysno::Ioctl => Some(16),
            Sysno::Ioperm => Some(173),
            Sysno::Iopl => Some(172),
            Sysno::Ipc => None,
            Sysno::Kill => Some(62),
            Sysno::Lchown => Some(94),
            Sysno::Link => Some(86),
            Sysno::Lseek => Some(8),
            Sysno::Mkdir => Some(83),
            Sysno::Mknod => Some(133),
            Sysno::Mmap => Some(9),
            Sysno::ModifyLdt => Some(154),
            Sysno::Mount => Some(165),
            Sysno::Munmap => Some(11),
            Sysno::Newfstat => Some(5),
            Sysno::Newlstat => Some(6),
            Sysno::Newstat => Some(4),
            Sysno::Oldlstat => None,
        }
    }
}

/// The x86 table as the kernel's `syscall_32.tbl` lists it, by number: the
/// wrapped call that number `n` selects.
pub open spec fn x86_entry(n: isize) -> Option<Sysno> {
    match n {
        33 => Some(Sysno::Access),
        51 => Some(Sysno::Acct),
        124 => Some(Sysno::Adjtimex),
        27 => Some(Sysno::Alarm),
        45 => Some(Sysno::Brk),
        12 => Some(Sysno::Chdir),
        15 => Some(Sysno::Chmod),
        61 => Some(Sysno::Chroot),
        6 => Some(Sysno::Close),
        8 => Some(Sysno::Creat),
        127 => Some(Sysno::CreateModule),
        129 => Some(Sysno::DeleteModule),
        41 => Some(Sysno::Dup),
        63 => Some(Sysno::Dup2),
        11 => Some(Sysno::Execve),
        1 => Some(Sysno::Exit),
        133 => Some(Sysno::Fchdir),
        94 => Some(Sysno::Fchmod),
        95 => Some(Sysno::Fchown),
        55 => Some(Sysno::Fcntl),
        2 => Some(Sysno::Fork),
        28 => Some(Sysno::Fstat),
        100 => Some(Sysno::Fstatfs),
        118 => Some(Sysno::Fsync),
        93 => Some(Sysno::Ftruncate),
        130 => Some(Sysno::GetKernelSyms),
        50 => Some(Sysno::Getegid),
        49 => Some(Sysno::Geteuid),
        47 => Some(Sysno::Getgid),
        80 => Some(Sysno::Getgroups),
        105 => Some(Sysno::Getitimer),
        132 => Some(Sysno::Getpgid),
        65 => Some(Sysno::Getpgrp),
        20 => Some(Sysno::Getpid),
        64 => Some(Sysno::Getppid),
        96 => Some(Sysno::Getpriority),
        76 => Some(Sysno::Getrlimit),
        77 => Some(Sysno::Getrusage),
        78 => Some(Sysno::Gettimeofday),
        24 => Some(Sysno::Getuid),
        112 => Some(Sysno::Idle),
        128 => Some(Sysno::InitModule),
        54 => Some(Sysno::Ioctl),
        101 => Some(Sysno::Ioperm),
        110 => Some(Sysno::Iopl),
        117 => Some(Sysno::Ipc),
        37 => Some(Sysno::Kill),
        16 => Some(Sysno::Lchown),
        9 => Some(Sysno::Link),
        19 => Some(Sysno::Lseek),
        39 => Some(Sysno::Mkdir),
        14 => Some(Sysno::Mknod),
        90 => Some(Sysno::Mmap),
        123 => Some(Sysno::ModifyLdt),
        21 => Some(Sysno::Mount),
        91 => Some(Sysno::Munmap),
        108 => Some(Sysno::Newfstat),
        107 => Some(Sysno::Newlstat),
        106 => Some(Sysno::Newstat),
        84 => Some(Sysno::Oldlstat),
        _ => None,
    }
}

/// The aarch64 table as `asm-generic/unistd.h` lists it, by number: the
/// wrapped call that number `n` selects.
pub open spec fn aarch64_entry(n: isize) -> Option<Sysno> {
    match n {
        89 => Some(Sysno::Acct),
        171 => Some(Sysno::Adjtimex),
        214 => Some(Sysno::Brk),
        49 => Some(Sysno::Chdir),
        51 => Some(Sysno::Chroot),
        57 => Some(Sysno::Close),
        106 => Some(Sysno::DeleteModule),
        23 => Some(Sysno::Dup),
        221 => Some(Sysno::Execve),
        93 => Some(Sysno::Exit),
        50 => Some(Sysno::Fchdir),
        52 => Some(Sysno::Fchmod),
        55 => Some(Sysno::Fchown),
        25 => Some(Sysno::Fcntl),
        44 => Some(Sysno::Fstatfs),
        82 => Some(Sysno::Fsync),
        46 => Some(Sysno::Ftruncate),
        177 => Some(Sysno::Getegid),
        175 => Some(Sysno::Geteuid),
        176 => Some(Sysno::Getgid),
        158 => Some(Sysno::Getgroups),
        102 => Some(Sysno::Getitimer),
        155 => Some(Sysno::Getpgid),
        172 => Some(Sysno::Getpid),
        173 => Some(Sysno::Getppid),
        141 => Some(Sysno::Getpriority),
        163 => Some(Sysno::Getrlimit),
        165 => Some(Sysno::Getrusage),
        169 => Some(Sysno::Gettimeofday),
        174 => Some(Sysno::Getuid),
        105 => Some(Sysno::InitModule),
        29 => Some(Sysno::Ioctl),
        129 => Some(Sysno::Kill),
        62 => Some(Sysno::Lseek),
        222 => Some(Sysno::Mmap),
        40 => Some(Sysno::Mount),
        215 => Some(Sysno::Munmap),
        80 => Some(Sysno::Newfstat),
        _ => None,
    }
}

/// The x86_64 table as the kernel's `syscall_64.tbl` lists it, by number: the
/// wrapped call that number `n` selects.
pub open spec fn x86_64_entry(n: isize) -> Option<Sysno> {
    match n {
        21 => Some(Sysno::Access),
        163 => Some(Sysno::Acct),
        159 => Some(Sysno::Adjtimex),
        37 => Some(Sysno::Alarm),
        12 => Some(Sysno::Brk),
        80 => Some(Sysno::Chdir),
        90 => Some(Sysno::Chmod),
        161 => Some(Sysno::Chroot),
        3 => Some(Sysno::Close),
        85 => Some(Sysno::Creat),
        174 => Some(Sysno::CreateModule),
        176 => Some(Sysno::DeleteModule),
        32 => Some(Sysno::Dup),
        33 => Some(Sysno::Dup2),
        59 => Some(Sysno::Execve),
        60 => Some(Sysno::Exit),
        81 => Some(Sysno::Fchdir),
        91 => Some(Sysno::Fchmod),
        93 => Some(Sysno::Fchown),
        72 => Some(Sysno::Fcntl),
        57 => Some(Sysno::Fork),
        138 => Some(Sysno::Fstatfs),
        74 => Some(Sysno::Fsync),
        77 => Some(Sysno::Ftruncate),
        177 => Some(Sysno::GetKernelSyms),
        108 => Some(Sysno::Getegid),
        107 => Some(Sysno::Geteuid),
        104 => Some(Sysno::Getgid),
        115 => Some(Sysno::Getgroups),
        36 => Some(Sysno::Getitimer),
        121 => Some(Sysno::Getpgid),
        111 => Some(Sysno::Getpgrp),
        39 => Some(Sysno::Getpid),
        110 => Some(Sysno::Getppid),
        140 => Some(Sysno::Getpriority),
        97 => Some(Sysno::Getrlimit),
        98 => Some(Sysno::Getrusage),
        96 => Some(Sysno::Gettimeofday),
        102 => Some(Sysno::Getuid),
        175 => Some(Sysno::InitModule),
        16 => Some(Sysno::Ioctl),
        173 => Some(Sysno::Ioperm),
        172 => Some(Sysno::Iopl),
        62 => Some(Sysno::Kill),
        94 => Some(Sysno::Lchown),
        86 => Some(Sysno::Link),
        8 => Some(Sysno::Lseek),
        83 => Some(Sysno::Mkdir),
        133 => Some(Sysno::Mknod),
        9 => Some(Sysno::Mmap),
        154 => Some(Sysno::ModifyLdt),
        165 => Some(Sysno::Mount),
        11 => Some(Sysno::Munmap),
        5 => Some(Sysno::Newfstat),
        6 => Some(Sysno::Newlstat),
        4 => Some(Sysno::Newstat),
        _ => None,
    }
}
/// The wrapped call that number `n` selects in the table of `arch`.
pub open spec fn table_entry(arch: Arch, n: isize) -> Option<Sysno> {
    match arch {
        Arch::X86 => x86_entry(n),
        Arch::Aarch64 => aarch64_entry(n),
        Arch::X86_64 => x86_64_entry(n),
    }
}

proof fn lemma_entry_of_number(s: Sysno, arch: Arch)
    ensures
        syscall_number(s, arch) is Some ==> table_entry(arch, syscall_number(s, arch)->0) == Some(s),
{
}

/// No two system calls share a number in the table of one architecture.
pub proof fn lemma_numbers_distinct(s1: Sysno, s2: Sysno, arch: Arch)
    requires
        syscall_number(s1, arch) is Some,
        syscall_number(s1, arch) == syscall_number(s2, arch),
    ensures
        s1 == s2,
{
    lemma_entry_of_number(s1, arch);
    lemma_entry_of_number(s2, arch);
}

/// The numbers are those of the kernel's tables: `s` has number `n` on `arch`
/// exactly when the table of `arch` lists `s` under `n`. In particular every
/// wrapped call that a table lists gets a number on that architecture.
pub proof fn lemma_numbers_match_tables(s: Sysno, arch: Arch, n: isize)
    ensures
        syscall_number(s, arch) == Some(n) <==> table_entry(arch, n) == Some(s),
{
    lemma_entry_of_number(s, arch);
    if table_entry(arch, n) == Some(s) {
        lemma_table_lists_number(arch, n);
    }
}

proof fn lemma_table_lists_number(arch: Arch, n: isize)
    ensures
        table_entry(arch, n) matches Some(s) ==> syscall_number(s, arch) == Some(n),
{
}

/// The aarch64 table lists every wrapped call but those that the generic
/// table replaced by an `*at` form or left out.
pub proof fn lemma_aarch64_coverage(s: Sysno)
    ensures
        syscall_number(s, Arch::Aarch64) is None <==> {
            ||| s == Sysno::Access
            ||| s == Sysno::Alarm
            ||| s == Sysno::Chmod
            ||| s == Sysno::Creat
            ||| s == Sysno::CreateModule
            ||| s == Sysno::Dup2
            ||| s == Sysno::Fork
            ||| s == Sysno::Fstat
            ||| s == Sysno::GetKernelSyms
            ||| s == Sysno::Getpgrp
            ||| s == Sysno::Idle
            ||| s == Sysno::Ioperm
            ||| s == Sysno::Iopl
            ||| s == Sysno::Ipc
            ||| s == Sysno::Lchown
            ||| s == Sysno::Link
            ||| s == Sysno::Mkdir
            ||| s == Sysno::Mknod
            ||| s == Sysno::ModifyLdt
            ||| s == Sysno::Newlstat
            ||| s == Sysno::Newstat
            ||| s == Sysno::Oldlstat
        },
{
}

/// The x86_64 table lists every wrapped call but the legacy `fstat` and
/// `lstat` entries, `idle` and the `ipc` multiplexer.
pub proof fn lemma_x86_64_coverage(s: Sysno)
    ensures
        syscall_number(s, Arch::X86_64) is None <==> {
            ||| s == Sysno::Fstat
            ||| s == Sysno::Idle
            ||| s == Sysno::Ipc
            ||| s == Sysno::Oldlstat
        },
{
}

/// Every system call that this crate wraps has an entry in the x86 table, the
/// ABI that all of its wrappers serve.
pub proof fn lemma_every_call_on_x86(s: Sysno)
    ensures
        syscall_number(s, Arch::X86) is Some,
{
}

} // verus!
