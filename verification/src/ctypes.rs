//! The C types of the Linux system call ABI that the wrappers take and return.
//!
//! On every architecture this crate targets (x86, aarch64 and x86_64) the C
//! `long` has the width of a pointer, so `long`-sized types are the
//! pointer-sized Rust integers.
use vstd::prelude::*;

verus! {

/// C `int`.
pub type Int = i32;

/// C `unsigned int`.
pub type UnsignedInt = u32;

/// C `long`.
pub type Long = isize;

/// C `unsigned long`.
pub type UnsignedLong = usize;

/// C `size_t`.
pub type SizeT = usize;

/// Kernel `off_t` (`__kernel_off_t`, a `long`).
pub type OffT = isize;

/// Kernel `pid_t`.
pub type PidT = i32;

/// Kernel `umode_t`.
pub type UModeT = u16;

/// Kernel `old_uid_t`, the 16-bit user ID of the legacy ABI.
pub type OldUidT = u16;

/// Kernel `old_gid_t`, the 16-bit group ID of the legacy ABI.
pub type OldGidT = u16;

} // verus!
