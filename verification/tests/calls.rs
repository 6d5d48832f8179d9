use celer_system_linux_syscalls::arch::Sysno;
use celer_system_linux_syscalls::call::ResultType;
use celer_system_linux_syscalls::linux_1_0;
use celer_system_linux_syscalls::sys;

#[test]
fn access_prepares_its_call() {
    let call = sys::access(0x1000, -1);
    assert_eq!(call.sysno(), Sysno::Access);
    assert_eq!(*call.args(), vec![4096isize, -1]);
    assert_eq!(call.result(), ResultType::Long);
}

#[test]
fn chdir_prepares_its_call() {
    let call = sys::chdir(0x1000);
    assert_eq!(call.sysno(), Sysno::Chdir);
    assert_eq!(*call.args(), vec![4096isize]);
    assert_eq!(call.result(), ResultType::Int);
}

#[test]
fn chmod_prepares_its_call() {
    let call = sys::chmod(0x1000, 0o644);
    assert_eq!(call.sysno(), Sysno::Chmod);
    assert_eq!(*call.args(), vec![4096isize, 420]);
    assert_eq!(call.result(), ResultType::Int);
}

#[test]
fn chroot_prepares_its_call() {
    let call = sys::chroot(0x1000);
    assert_eq!(call.sysno(), Sysno::Chroot);
    assert_eq!(*call.args(), vec![4096isize]);
    assert_eq!(call.result(), ResultType::Int);
}

#[test]
fn close_prepares_its_call() {
    let call = sys::close(-1);
    assert_eq!(call.sysno(), Sysno::Close);
    assert_eq!(*call.args(), vec![-1isize]);
    assert_eq!(call.result(), ResultType::Int);
}

#[test]
fn creat_prepares_its_call() {
    let call = sys::creat(0x1000, 0o644);
    assert_eq!(call.sysno(), Sysno::Creat);
    assert_eq!(*call.args(), vec![4096isize, 420]);
    assert_eq!(call.result(), ResultType::Long);
}

#[test]
fn dup_prepares_its_call() {
    let call = sys::dup(9);
    assert_eq!(call.sysno(), Sysno::Dup);
    assert_eq!(*call.args(), vec![9isize]);
    assert_eq!(call.result(), ResultType::Int);
}

#[test]
fn dup2_prepares_its_call() {
    let call = sys::dup2(9, 1);
    assert_eq!(call.sysno(), Sysno::Dup2);
    assert_eq!(*call.args(), vec![9isize, 1]);
    assert_eq!(call.result(), ResultType::Int);
}

#[test]
fn fchdir_prepares_its_call() {
    let call = sys::fchdir(9);
    assert_eq!(call.sysno(), Sysno::Fchdir);
    assert_eq!(*call.args(), vec![9isize]);
    assert_eq!(call.result(), ResultType::Int);
}

#[test]
fn fchmod_prepares_its_call() {
    let call = sys::fchmod(-1, 0o644);
    assert_eq!(call.sysno(), Sysno::Fchmod);
    assert_eq!(*call.args(), vec![-1isize, 420]);
    assert_eq!(call.result(), ResultType::Int);
}

#[test]
fn fchown16_prepares_its_call() {
    let call = sys::fchown16(9, 65535, 1000);
    assert_eq!(call.sysno(), Sysno::Fchown);
    assert_eq!(*call.args(), vec![9isize, 65535, 1000]);
    assert_eq!(call.result(), ResultType::Int);
}

#[test]
fn fcntl_prepares_its_call() {
    let call = sys::fcntl(9, -1, -5);
    assert_eq!(call.sysno(), Sysno::Fcntl);
    assert_eq!(*call.args(), vec![9isize, -1, -5]);
    assert_eq!(call.result(), ResultType::Long);
}

#[test]
fn fsync_prepares_its_call() {
    let call = sys::fsync(-1);
    assert_eq!(call.sysno(), Sysno::Fsync);
    assert_eq!(*call.args(), vec![-1isize]);
    assert_eq!(call.result(), ResultType::Int);
}

#[test]
fn ftruncate_prepares_its_call() {
    let call = sys::ftruncate(9, -1);
    assert_eq!(call.sysno(), Sysno::Ftruncate);
    assert_eq!(*call.args(), vec![9isize, -1]);
    assert_eq!(call.result(), ResultType::Int);
}

#[test]
fn ioctl_prepares_its_call() {
    let call = sys::ioctl(9, usize::MAX, 4096);
    assert_eq!(call.sysno(), Sysno::Ioctl);
    assert_eq!(*call.args(), vec![9isize, -1, 4096]);
    assert_eq!(call.result(), ResultType::Long);
}

#[test]
fn lchown_prepares_its_call() {
    let call = sys::lchown(0x1000, 9, 1);
    assert_eq!(call.sysno(), Sysno::Lchown);
    assert_eq!(*call.args(), vec![4096isize, 9, 1]);
    assert_eq!(call.result(), ResultType::Int);
}

#[test]
fn link_prepares_its_call() {
    let call = sys::link(0x1000, 0x2040);
    assert_eq!(call.sysno(), Sysno::Link);
    assert_eq!(*call.args(), vec![4096isize, 8256]);
    assert_eq!(call.result(), ResultType::Long);
}

#[test]
fn lseek_prepares_its_call() {
    let call = sys::lseek(9, -1, 1);
    assert_eq!(call.sysno(), Sysno::Lseek);
    assert_eq!(*call.args(), vec![9isize, -1, 1]);
    assert_eq!(call.result(), ResultType::Long);
}

#[test]
fn mkdir_prepares_its_call() {
    let call = sys::mkdir(0x1000, 0o644);
    assert_eq!(call.sysno(), Sysno::Mkdir);
    assert_eq!(*call.args(), vec![4096isize, 420]);
    assert_eq!(call.result(), ResultType::Long);
}

#[test]
fn mknod_prepares_its_call() {
    let call = sys::mknod(0x1000, 0o644, 9);
    assert_eq!(call.sysno(), Sysno::Mknod);
    assert_eq!(*call.args(), vec![4096isize, 420, 9]);
    assert_eq!(call.result(), ResultType::Long);
}

#[test]
fn mount_prepares_its_call() {
    let call = sys::mount(0x1000, 0x2040, 0x30_0000, usize::MAX, 0);
    assert_eq!(call.sysno(), Sysno::Mount);
    assert_eq!(*call.args(), vec![4096isize, 8256, 3145728, -1, 0]);
    assert_eq!(call.result(), ResultType::Long);
}

#[test]
fn ftruncate_1_0_prepares_its_call() {
    let call = sys::ftruncate_1_0(9, 1);
    assert_eq!(call.sysno(), linux_1_0::Sysno::Ftruncate);
    assert_eq!(*call.args(), vec![9isize, 1]);
    assert_eq!(call.result(), ResultType::Int);
}

#[test]
fn fstat_prepares_its_call() {
    let call = sys::fstat(9, 0x1000);
    assert_eq!(call.sysno(), Sysno::Fstat);
    assert_eq!(*call.args(), vec![9isize, 4096]);
    assert_eq!(call.result(), ResultType::Long);
}

#[test]
fn fstatfs_prepares_its_call() {
    let call = sys::fstatfs(9, 0x1000);
    assert_eq!(call.sysno(), Sysno::Fstatfs);
    assert_eq!(*call.args(), vec![9isize, 4096]);
    assert_eq!(call.result(), ResultType::Long);
}

#[test]
fn oldlstat_prepares_its_call() {
    let call = sys::oldlstat(0x1000, 0x2040);
    assert_eq!(call.sysno(), Sysno::Oldlstat);
    assert_eq!(*call.args(), vec![4096isize, 8256]);
    assert_eq!(call.result(), ResultType::Long);
}

#[test]
fn newfstat_prepares_its_call() {
    let call = sys::newfstat(9, 0x1000);
    assert_eq!(call.sysno(), Sysno::Newfstat);
    assert_eq!(*call.args(), vec![9isize, 4096]);
    assert_eq!(call.result(), ResultType::Long);
}

#[test]
fn newlstat_prepares_its_call() {
    let call = sys::newlstat(0x1000, 0x2040);
    assert_eq!(call.sysno(), Sysno::Newlstat);
    assert_eq!(*call.args(), vec![4096isize, 8256]);
    assert_eq!(call.result(), ResultType::Long);
}

#[test]
fn stat_prepares_its_call() {
    let call = sys::stat(0x1000, 0x2040);
    assert_eq!(call.sysno(), Sysno::Newstat);
    assert_eq!(*call.args(), vec![4096isize, 8256]);
    assert_eq!(call.result(), ResultType::Long);
}

#[test]
fn fstatfs_1_0_prepares_its_call() {
    let call = sys::fstatfs_1_0(9, 0x1000);
    assert_eq!(call.sysno(), linux_1_0::Sysno::Fstatfs);
    assert_eq!(*call.args(), vec![9isize, 4096]);
    assert_eq!(call.result(), ResultType::Long);
}

#[test]
fn newfstat_1_0_prepares_its_call() {
    let call = sys::newfstat_1_0(9, 0x1000);
    assert_eq!(call.sysno(), linux_1_0::Sysno::Newfstat);
    assert_eq!(*call.args(), vec![9isize, 4096]);
    assert_eq!(call.result(), ResultType::Long);
}

#[test]
fn newlstat_1_0_prepares_its_call() {
    let call = sys::newlstat_1_0(0x1000, 0x2040);
    assert_eq!(call.sysno(), linux_1_0::Sysno::Newlstat);
    assert_eq!(*call.args(), vec![4096isize, 8256]);
    assert_eq!(call.result(), ResultType::Long);
}

#[test]
fn acct_prepares_its_call() {
    let call = sys::acct(0x1000);
    assert_eq!(call.sysno(), Sysno::Acct);
    assert_eq!(*call.args(), vec![4096isize]);
    assert_eq!(call.result(), ResultType::Int);
}

#[test]
fn execve_prepares_its_call() {
    let call = sys::execve(0x1000, 0x2040, 0x30_0000);
    assert_eq!(call.sysno(), Sysno::Execve);
    assert_eq!(*call.args(), vec![4096isize, 8256, 3145728]);
    assert_eq!(call.result(), ResultType::Long);
}

#[test]
fn exit_prepares_its_call() {
    let call = sys::exit(-1);
    assert_eq!(call.sysno(), Sysno::Exit);
    assert_eq!(*call.args(), vec![-1isize]);
    assert_eq!(call.result(), ResultType::Int);
}

#[test]
fn fork_prepares_its_call() {
    let call = sys::fork();
    assert_eq!(call.sysno(), Sysno::Fork);
    assert!(call.args().is_empty());
    assert_eq!(call.result(), ResultType::Int);
}

#[test]
fn getegid16_prepares_its_call() {
    let call = sys::getegid16();
    assert_eq!(call.sysno(), Sysno::Getegid);
    assert!(call.args().is_empty());
    assert_eq!(call.result(), ResultType::OldGid);
}

#[test]
fn geteuid16_prepares_its_call() {
    let call = sys::geteuid16();
    assert_eq!(call.sysno(), Sysno::Geteuid);
    assert!(call.args().is_empty());
    assert_eq!(call.result(), ResultType::OldUid);
}

#[test]
fn getgid16_prepares_its_call() {
    let call = sys::getgid16();
    assert_eq!(call.sysno(), Sysno::Getgid);
    assert!(call.args().is_empty());
    assert_eq!(call.result(), ResultType::OldGid);
}

#[test]
fn getgroups16_prepares_its_call() {
    let call = sys::getgroups16(-1, 0x1000);
    assert_eq!(call.sysno(), Sysno::Getgroups);
    assert_eq!(*call.args(), vec![-1isize, 4096]);
    assert_eq!(call.result(), ResultType::Int);
}

#[test]
fn getpgid_prepares_its_call() {
    let call = sys::getpgid(1);
    assert_eq!(call.sysno(), Sysno::Getpgid);
    assert_eq!(*call.args(), vec![1isize]);
    assert_eq!(call.result(), ResultType::Int);
}

#[test]
fn getpgrp_prepares_its_call() {
    let call = sys::getpgrp();
    assert_eq!(call.sysno(), Sysno::Getpgrp);
    assert!(call.args().is_empty());
    assert_eq!(call.result(), ResultType::Int);
}

#[test]
fn getpid_prepares_its_call() {
    let call = sys::getpid();
    assert_eq!(call.sysno(), Sysno::Getpid);
    assert!(call.args().is_empty());
    assert_eq!(call.result(), ResultType::Int);
}

#[test]
fn getppid_prepares_its_call() {
    let call = sys::getppid();
    assert_eq!(call.sysno(), Sysno::Getppid);
    assert!(call.args().is_empty());
    assert_eq!(call.result(), ResultType::Int);
}

#[test]
fn getpriority_prepares_its_call() {
    let call = sys::getpriority(-1, 7);
    assert_eq!(call.sysno(), Sysno::Getpriority);
    assert_eq!(*call.args(), vec![-1isize, 7]);
    assert_eq!(call.result(), ResultType::Int);
}

#[test]
fn getrlimit_prepares_its_call() {
    let call = sys::getrlimit(9, 0x1000);
    assert_eq!(call.sysno(), Sysno::Getrlimit);
    assert_eq!(*call.args(), vec![9isize, 4096]);
    assert_eq!(call.result(), ResultType::Int);
}

#[test]
fn getrusage_prepares_its_call() {
    let call = sys::getrusage(-1, 0x1000);
    assert_eq!(call.sysno(), Sysno::Getrusage);
    assert_eq!(*call.args(), vec![-1isize, 4096]);
    assert_eq!(call.result(), ResultType::Int);
}

#[test]
fn getuid16_prepares_its_call() {
    let call = sys::getuid16();
    assert_eq!(call.sysno(), Sysno::Getuid);
    assert!(call.args().is_empty());
    assert_eq!(call.result(), ResultType::OldUid);
}

#[test]
fn idle_prepares_its_call() {
    let call = sys::idle();
    assert_eq!(call.sysno(), Sysno::Idle);
    assert!(call.args().is_empty());
    assert_eq!(call.result(), ResultType::Int);
}

#[test]
fn kill_prepares_its_call() {
    let call = sys::kill(1, -1);
    assert_eq!(call.sysno(), Sysno::Kill);
    assert_eq!(*call.args(), vec![1isize, -1]);
    assert_eq!(call.result(), ResultType::Long);
}

#[test]
fn adjtimex_prepares_its_call() {
    let call = sys::adjtimex(0x1000);
    assert_eq!(call.sysno(), Sysno::Adjtimex);
    assert_eq!(*call.args(), vec![4096isize]);
    assert_eq!(call.result(), ResultType::Int);
}

#[test]
fn alarm_prepares_its_call() {
    let call = sys::alarm(9);
    assert_eq!(call.sysno(), Sysno::Alarm);
    assert_eq!(*call.args(), vec![9isize]);
    assert_eq!(call.result(), ResultType::UnsignedInt);
}

#[test]
fn getitimer_prepares_its_call() {
    let call = sys::getitimer(-1, 0x1000);
    assert_eq!(call.sysno(), Sysno::Getitimer);
    assert_eq!(*call.args(), vec![-1isize, 4096]);
    assert_eq!(call.result(), ResultType::Int);
}

#[test]
fn gettimeofday_prepares_its_call() {
    let call = sys::gettimeofday(0x1000, 0x2040);
    assert_eq!(call.sysno(), Sysno::Gettimeofday);
    assert_eq!(*call.args(), vec![4096isize, 8256]);
    assert_eq!(call.result(), ResultType::Int);
}

#[test]
fn brk_prepares_its_call() {
    let call = sys::brk(usize::MAX);
    assert_eq!(call.sysno(), Sysno::Brk);
    assert_eq!(*call.args(), vec![-1isize]);
    assert_eq!(call.result(), ResultType::UnsignedLong);
}

#[test]
fn munmap_prepares_its_call() {
    let call = sys::munmap(usize::MAX, 4096);
    assert_eq!(call.sysno(), Sysno::Munmap);
    assert_eq!(*call.args(), vec![-1isize, 4096]);
    assert_eq!(call.result(), ResultType::Int);
}

#[test]
fn modify_ldt_prepares_its_call() {
    let call = sys::modify_ldt(-1, 0x1000, usize::MAX);
    assert_eq!(call.sysno(), Sysno::ModifyLdt);
    assert_eq!(*call.args(), vec![-1isize, 4096, -1]);
    assert_eq!(call.result(), ResultType::Int);
}

#[test]
fn iopl_prepares_its_call() {
    let call = sys::iopl(9);
    assert_eq!(call.sysno(), Sysno::Iopl);
    assert_eq!(*call.args(), vec![9isize]);
    assert_eq!(call.result(), ResultType::Int);
}

#[test]
fn create_module_prepares_its_call() {
    let call = sys::create_module(0x1000, usize::MAX);
    assert_eq!(call.sysno(), Sysno::CreateModule);
    assert_eq!(*call.args(), vec![4096isize, -1]);
    assert_eq!(call.result(), ResultType::UnsignedLong);
}

#[test]
fn delete_module_prepares_its_call() {
    let call = sys::delete_module(0x1000, 9);
    assert_eq!(call.sysno(), Sysno::DeleteModule);
    assert_eq!(*call.args(), vec![4096isize, 9]);
    assert_eq!(call.result(), ResultType::Int);
}

#[test]
fn get_kernel_syms_prepares_its_call() {
    let call = sys::get_kernel_syms(0x1000);
    assert_eq!(call.sysno(), Sysno::GetKernelSyms);
    assert_eq!(*call.args(), vec![4096isize]);
    assert_eq!(call.result(), ResultType::Int);
}

#[test]
fn init_module_prepares_its_call() {
    let call = sys::init_module(0x1000, usize::MAX, 0x2040);
    assert_eq!(call.sysno(), Sysno::InitModule);
    assert_eq!(*call.args(), vec![4096isize, -1, 8256]);
    assert_eq!(call.result(), ResultType::Int);
}

#[test]
fn init_module_1_0_prepares_its_call() {
    let call = sys::init_module_1_0(0x1000, 0x2040, 9, 0x30_0000);
    assert_eq!(call.sysno(), linux_1_0::Sysno::InitModule);
    assert_eq!(*call.args(), vec![4096isize, 8256, 9, 3145728]);
    assert_eq!(call.result(), ResultType::Int);
}
