//! Raw Linux system call wrappers: the system call numbers of each supported
//! architecture, and for every wrapper the exact register words it hands the
//! kernel and the way it reads the kernel's answer back.
pub mod arch;
pub mod ctypes;
pub mod linux_1_0;
pub mod call;
pub mod sys;
