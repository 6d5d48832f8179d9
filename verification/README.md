# celer_system_linux_syscalls

Raw Linux system call wrappers for x86 (with the Linux 1.0 legacy entries),
aarch64 and x86_64, split in two:

- `src/` is verified with Verus. `arch` holds the system call table of each
  architecture (with the proof that no two calls share a number), `linux_1_0`
  the Linux 1.0 x86 numbers, and the number of words each entry reads;
  `call` the prepared-call type (never more than six words), its registers
  on an architecture (`-ENOSYS` where the table has no entry) and the reading
  of the kernel's raw answer as the call's C type; `sys` one function per
  system call that prepares it: which entry it selects, the exact word each
  argument travels as, how its answer is read, and that it carries as many
  words as its entry reads on every architecture that has one (`mmap_form`
  picks the x86 argument block or the six registers).
- `app/` issues the prepared calls with each architecture's system call
  instruction and offers the wrappers with their C signatures.

`tests/` checks the system call numbers, every prepared call, the readers,
the registers and the laws on concrete values.
