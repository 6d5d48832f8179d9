use celer_system_linux_syscalls::arch::{Arch, Sysno};
use celer_system_linux_syscalls::call::{
    int_result, old_gid_result, old_uid_result, unsigned_int_result, unsigned_long_result, Answer,
    ResultType, ENOSYS,
};
use celer_system_linux_syscalls::sys::{self, MmapArgs, MmapForm};

#[test]
fn ioperm_passes_turn_on_as_one_or_zero() {
    let on = sys::ioperm(0x3f8, 8, true);
    assert_eq!(on.sysno(), Sysno::Ioperm);
    assert_eq!(*on.args(), vec![0x3f8isize, 8, 1]);
    assert_eq!(on.result(), ResultType::Int);

    let off = sys::ioperm(0, 0, false);
    assert_eq!(*off.args(), vec![0isize, 0, 0]);
}

#[test]
fn mmap_passes_six_register_words() {
    let call = sys::mmap(0, 4096, 0x1 | 0x2, 0x02 | 0x20, 0, 0);
    assert_eq!(call.sysno(), Sysno::Mmap);
    assert_eq!(*call.args(), vec![0isize, 4096, 3, 0x22, 0, 0]);
    assert_eq!(call.result(), ResultType::UnsignedLong);
}

#[test]
fn mmap_args_holds_the_arguments_in_order() {
    let block = sys::mmap_args(0x1000, 4096, 3, 0x22, 5, 8192);
    assert_eq!(
        block,
        MmapArgs { addr: 0x1000, len: 4096, prot: 3, flags: 0x22, fd: 5, offset: 8192 }
    );
}

#[test]
fn mmap_block_and_registers_carry_the_same_words() {
    let (addr, len, prot, flags, fd, offset) =
        (0x7000usize, 12288usize, 1usize, 2usize, 9u32, 4096usize);
    let block = sys::mmap_args(addr, len, prot, flags, fd, offset);
    let call = sys::mmap(addr, len, prot, flags, fd, offset);
    let words = vec![
        block.addr as isize,
        block.len as isize,
        block.prot as isize,
        block.flags as isize,
        block.fd as isize,
        block.offset as isize,
    ];
    assert_eq!(*call.args(), words);
}

#[test]
fn old_mmap_passes_the_block_address() {
    let call = sys::old_mmap(0xbfff_0000);
    assert_eq!(call.sysno(), Sysno::Mmap);
    assert_eq!(*call.args(), vec![0xbfff_0000isize]);
    assert_eq!(call.result(), ResultType::UnsignedLong);
}

#[test]
fn mmap_form_is_a_block_on_x86_and_registers_elsewhere() {
    match sys::mmap_form(Arch::X86, 0, 4096, 1, 2, 9, 0) {
        MmapForm::Block(b) => {
            assert_eq!(b, MmapArgs { addr: 0, len: 4096, prot: 1, flags: 2, fd: 9, offset: 0 })
        },
        MmapForm::Registers(_) => panic!("x86 reads an argument block"),
    }
    for arch in [Arch::Aarch64, Arch::X86_64] {
        match sys::mmap_form(arch, 0, 4096, 1, 2, 9, 0) {
            MmapForm::Registers(c) => assert_eq!(*c.args(), vec![0isize, 4096, 1, 2, 9, 0]),
            MmapForm::Block(_) => panic!("{arch:?} reads six registers"),
        }
    }
}

#[test]
fn ipc_selectors_have_their_kernel_values() {
    assert_eq!(sys::SEMOP, 1);
    assert_eq!(sys::SEMGET, 2);
    assert_eq!(sys::SEMCTL, 3);
    assert_eq!(sys::MSGSND, 11);
    assert_eq!(sys::MSGRCV, 12);
    assert_eq!(sys::MSGGET, 13);
    assert_eq!(sys::MSGCTL, 14);
    assert_eq!(sys::SHMAT, 21);
    assert_eq!(sys::SHMDT, 22);
    assert_eq!(sys::SHMGET, 23);
    assert_eq!(sys::SHMCTL, 24);
}

#[test]
fn ipc_invalid_selector_is_passed_through() {
    let call = sys::ipc(0, 0, 0, 0, 0);
    assert_eq!(call.sysno(), Sysno::Ipc);
    assert_eq!(*call.args(), vec![0isize, 0, 0, 0, 0]);
    assert_eq!(call.result(), ResultType::Long);
}

#[test]
fn fchown16_preserve_markers_travel_unchanged() {
    let call = sys::fchown16(u32::MAX, u16::MAX, u16::MAX);
    assert_eq!(*call.args(), vec![u32::MAX as isize, 65535, 65535]);
}

#[test]
fn ftruncate_negative_length_travels_as_negative_word() {
    let call = sys::ftruncate(3, -1);
    assert_eq!(*call.args(), vec![3isize, -1]);
}

#[test]
fn int_result_keeps_errno_words() {
    assert_eq!(int_result(-9), -9);
    assert_eq!(int_result(-22), -22);
    assert_eq!(int_result(-4095), -4095);
    assert_eq!(int_result(0), 0);
    assert_eq!(int_result(20), 20);
}

#[test]
fn unsigned_int_result_reads_low_bits() {
    assert_eq!(unsigned_int_result(0), 0);
    assert_eq!(unsigned_int_result(17), 17);
    assert_eq!(unsigned_int_result(-1), u32::MAX);
}

#[test]
fn unsigned_long_result_reinterprets_the_word() {
    assert_eq!(unsigned_long_result(0x1000), 0x1000);
    assert_eq!(unsigned_long_result(-1), usize::MAX);
    assert_eq!(unsigned_long_result(-4095), usize::MAX - 4094);
    assert_eq!(unsigned_long_result(-12) as isize, -12);
}

#[test]
fn old_id_results_read_the_low_sixteen_bits() {
    assert_eq!(old_uid_result(1000), 1000);
    assert_eq!(old_gid_result(65535), 65535);
    assert_eq!(old_uid_result(65536 + 7), 7);
    assert_eq!(old_gid_result(-1), u16::MAX);
}

#[test]
fn answer_reads_the_word_as_the_call_type() {
    assert_eq!(sys::close(-1).answer(-9), Answer::Int(-9));
    assert_eq!(sys::alarm(5).answer(-1), Answer::UnsignedInt(u32::MAX));
    assert_eq!(sys::access(0, 0).answer(-2), Answer::Long(-2));
    assert_eq!(sys::brk(0).answer(-12), Answer::UnsignedLong(usize::MAX - 11));
    assert_eq!(sys::getuid16().answer(65536 + 1000), Answer::OldUid(1000));
    assert_eq!(sys::getgid16().answer(100), Answer::OldGid(100));
    assert_eq!(sys::ftruncate_1_0(3, 0).answer(-13), Answer::Int(-13));
}

#[test]
fn registers_pad_the_words_with_zeros() {
    assert_eq!(sys::getpriority(3, 0).registers(Arch::X86), Ok((96, [3, 0, 0, 0, 0, 0])));
    assert_eq!(sys::mmap(1, 2, 3, 4, 5, 6).registers(Arch::X86_64), Ok((9, [1, 2, 3, 4, 5, 6])));
    assert_eq!(sys::fork().registers(Arch::X86), Ok((2, [0; 6])));
}

#[test]
fn registers_answer_enosys_where_the_table_has_no_entry() {
    assert_eq!(ENOSYS, 38);
    assert_eq!(sys::access(0x1000, 0).registers(Arch::Aarch64), Err(-38));
    assert_eq!(sys::idle().registers(Arch::X86_64), Err(-38));
    assert_eq!(sys::ipc(0, 0, 0, 0, 0).registers(Arch::X86_64), Err(-38));
    assert_eq!(sys::idle().registers(Arch::X86), Ok((112, [0; 6])));
}

#[test]
fn legacy_registers_use_the_linux_1_0_numbers() {
    assert_eq!(sys::fstatfs_1_0(3, 0x1000).registers(), (100, [3, 4096, 0, 0, 0, 0]));
    assert_eq!(sys::init_module_1_0(1, 2, 0, 3).registers(), (128, [1, 2, 0, 3, 0, 0]));
}
