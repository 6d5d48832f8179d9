//! One wrapper per system call: each prepares the call it names.

pub mod files;
pub mod stat;
pub mod process;
pub mod time;
pub mod memory;
pub mod modules;
pub mod ipc;

pub use files::{access, chdir, chmod, chroot, close, creat, dup, dup2, fchdir, fchmod, fchown16, fcntl, fsync, ftruncate, ioctl, lchown, link, lseek, mkdir, mknod, mount, ftruncate_1_0};
pub use stat::{fstat, fstatfs, oldlstat, newfstat, newlstat, stat, fstatfs_1_0, newfstat_1_0, newlstat_1_0};
pub use process::{acct, execve, exit, fork, getegid16, geteuid16, getgid16, getgroups16, getpgid, getpgrp, getpid, getppid, getpriority, getrlimit, getrusage, getuid16, idle, kill};
pub use time::{adjtimex, alarm, getitimer, gettimeofday};
pub use memory::{brk, munmap, modify_ldt, iopl, ioperm, mmap, mmap_args, mmap_form, old_mmap, MmapArgs, MmapForm};
pub use modules::{create_module, delete_module, get_kernel_syms, init_module, init_module_1_0};
pub use ipc::{ipc, SEMOP, SEMGET, SEMCTL, MSGSND, MSGRCV, MSGGET, MSGCTL, SHMAT, SHMDT, SHMGET, SHMCTL};
