//! A prepared system call: the entry that selects it, the words that carry its
//! arguments and the C type its answer is read as; how it fills the argument
//! registers of an architecture, and how the kernel's raw answer is read.
use vstd::prelude::*;
use crate::arch::{Arch, Sysno, arity, syscall_number};
use crate::ctypes::{Int, Long, OldGidT, OldUidT, UnsignedInt, UnsignedLong};
use crate::linux_1_0::{self, linux_1_0_arity, linux_1_0_number};

verus! {

/// The error number the kernel answers for a call number it does not know.
pub const ENOSYS: isize = 38;

/// The C type in which a wrapper hands back the kernel's answer.
#[derive(Clone, Copy, Debug, PartialEq, Eq, Structural)]
pub enum ResultType {
    /// C `int` (also `pid_t`).
    Int,
    /// C `unsigned int`.
    UnsignedInt,
    /// C `long`.
    Long,
    /// C `unsigned long`.
    UnsignedLong,
    /// Legacy 16-bit user ID.
    OldUid,
    /// Legacy 16-bit group ID.
    OldGid,
}

/// The kernel's answer, read as the C type of a wrapper.
#[derive(Clone, Copy, Debug, PartialEq, Eq, Structural)]
pub enum Answer {
    Int(Int),
    UnsignedInt(UnsignedInt),
    Long(Long),
    UnsignedLong(UnsignedLong),
    OldUid(OldUidT),
    OldGid(OldGidT),
}

/// How the raw answer word `raw` reads as the C type `ty`: the low bits that
/// fit the type, or, for the `long` types, the whole word.
pub open spec fn read_answer(ty: ResultType, raw: isize) -> Answer {
    match ty {
        ResultType::Int => Answer::Int(raw as Int),
        ResultType::UnsignedInt => Answer::UnsignedInt(raw as UnsignedInt),
        ResultType::Long => Answer::Long(raw),
        ResultType::UnsignedLong => Answer::UnsignedLong(raw as UnsignedLong),
        ResultType::OldUid => Answer::OldUid(raw as OldUidT),
        ResultType::OldGid => Answer::OldGid(raw as OldGidT),
    }
}

/// What reading the answer word `raw` as the C type `ty` gives `r`: the
/// variant of `ty`, holding the word's low bits (the whole word for the
/// `long` types), so that a word that fits the type comes back unchanged and
/// an `unsigned long` answer gives back the very word.
pub open spec fn answer_keeps_word(ty: ResultType, raw: isize, r: Answer) -> bool {
    match ty {
        ResultType::Int => r matches Answer::Int(v) && v == raw as i32 && (i32::MIN <= raw
            <= i32::MAX ==> v == raw),
        ResultType::UnsignedInt => r matches Answer::UnsignedInt(v) && v == raw as u32 && (0
            <= raw <= u32::MAX ==> v == raw),
        ResultType::Long => r == Answer::Long(raw),
        ResultType::UnsignedLong => r matches Answer::UnsignedLong(v) && v as isize == raw && (0
            <= raw ==> v == raw),
        ResultType::OldUid => r matches Answer::OldUid(v) && v == raw as u16 && (0 <= raw
            <= u16::MAX ==> v == raw),
        ResultType::OldGid => r matches Answer::OldGid(v) && v == raw as u16 && (0 <= raw
            <= u16::MAX ==> v == raw),
    }
}

/// Reading an answer loses only what its C type cannot hold: every word that
/// fits the type comes back unchanged, a wider word keeps its low bits, and
/// an `unsigned long` reading gives back the very word.
pub proof fn lemma_answer_keeps_word(ty: ResultType, raw: isize)
    ensures
        answer_keeps_word(ty, raw, read_answer(ty, raw)),
{
    if ty == ResultType::UnsignedLong {
        assert((raw as usize) as isize == raw) by (bit_vector);
    }
}

/// The six argument registers that carry the words `args`: the words in
/// order, the registers left over zero.
pub open spec fn fills_registers(w: [isize; 6], args: Seq<isize>) -> bool {
    forall|i: int| 0 <= i < 6 ==> w[i] == (if i < args.len() { args[i] } else { 0isize })
}

/// What a prepared call is: the entry it selects, its argument words, first
/// argument first, and the type its answer is read as.
pub ghost struct SyscallModel {
    pub sysno: Sysno,
    pub args: Seq<isize>,
    pub result: ResultType,
}

impl SyscallModel {
    /// The call can be issued on `arch` as it stands: `arch` has an entry for
    /// it, and that entry reads exactly its words.
    pub open spec fn serves(self, arch: Arch) -> bool {
        &&& syscall_number(self.sysno, arch) is Some
        &&& self.args.len() == arity(self.sysno, arch)
    }
}

/// A system call ready to be issued. It never holds more words than there
/// are argument registers.
#[derive(Debug)]
pub struct Syscall {
    sysno: Sysno,
    args: Vec<isize>,
    result: ResultType,
}

impl View for Syscall {
    type V = SyscallModel;

    closed spec fn view(&self) -> SyscallModel {
        SyscallModel { sysno: self.sysno, args: self.args@, result: self.result }
    }
}

/// Pads `args` with zeros to the six argument registers.
fn pad_registers(args: &Vec<isize>) -> (w: [isize; 6])
    requires
        args.len() <= 6,
    ensures
        fills_registers(w, args@),
{
    let mut w = [0isize; 6];
    let mut i: usize = 0;
    while i < args.len()
        invariant
            args.len() <= 6,
            i <= args.len(),
            forall|j: int| 0 <= j < i ==> w[j] == args@[j],
            forall|j: int| i <= j < 6 ==> w[j] == 0isize,
        decreases args.len() - i,
    {
        w[i] = args[i];
        i = i + 1;
    }
    w
}

/// Reads `raw` as the C type `ty`.
fn read(ty: ResultType, raw: isize) -> (r: Answer)
    ensures
        r == read_answer(ty, raw),
        answer_keeps_word(ty, raw, r),
{
    proof {
        lemma_answer_keeps_word(ty, raw);
    }
    match ty {
        ResultType::Int => Answer::Int(int_result(raw)),
        ResultType::UnsignedInt => Answer::UnsignedInt(unsigned_int_result(raw)),
        ResultType::Long => Answer::Long(raw),
        ResultType::UnsignedLong => Answer::UnsignedLong(unsigned_long_result(raw)),
        ResultType::OldUid => Answer::OldUid(old_uid_result(raw)),
        ResultType::OldGid => Answer::OldGid(old_gid_result(raw)),
    }
}

impl Syscall {
    #[verifier::type_invariant]
    spec fn fits_registers(self) -> bool {
        self.args.len() <= 6
    }

    /// The entry the call selects.
    pub fn sysno(&self) -> (s: Sysno)
        ensures
            s == self@.sysno,
    {
        self.sysno
    }

    /// The argument words, first argument first; never more than six.
    pub fn args(&self) -> (a: &Vec<isize>)
        ensures
            a@ == self@.args,
            a@.len() <= 6,
    {
        proof {
            use_type_invariant(self);
        }
        &self.args
    }

    /// The C type the answer is read as.
    pub fn result(&self) -> (t: ResultType)
        ensures
            t == self@.result,
    {
        self.result
    }

    /// What the call needs on `arch`: the number that selects it and the six
    /// argument registers; `-ENOSYS`, the kernel's answer to a number it does
    /// not know, where `arch` has no entry for it.
    pub fn registers(&self, arch: Arch) -> (r: Result<(isize, [isize; 6]), isize>)
        ensures
            r is Err <==> syscall_number(self@.sysno, arch) is None,
            r matches Err(e) ==> e == -ENOSYS && e == -38,
            r matches Ok((n, w)) ==> syscall_number(self@.sysno, arch) == Some(n) && fills_registers(
                w,
                self@.args,
            ),
            r matches Ok((n, w)) ==> forall|i: int|
                0 <= i < 6 ==> w[i] == (if i < self@.args.len() { self@.args[i] } else { 0isize }),
    {
        proof {
            use_type_invariant(self);
        }
        match self.sysno.number(arch) {
            Some(n) => Ok((n, pad_registers(&self.args))),
            None => Err(-ENOSYS),
        }
    }

    /// The kernel's answer `raw` to this call, read as the call's C type.
    pub fn answer(&self, raw: isize) -> (r: Answer)
        ensures
            r == read_answer(self@.result, raw),
            answer_keeps_word(self@.result, raw, r),
    {
        read(self.result, raw)
    }

    /// A call that takes no argument.
    pub fn new0(sysno: Sysno, result: ResultType) -> (r: Syscall)
        ensures
            r@ == (SyscallModel { sysno, args: Seq::empty(), result }),
    {
        Syscall { sysno, args: Vec::new(), result }
    }

    /// A call that takes one argument word.
    pub fn new1(sysno: Sysno, result: ResultType, a0: isize) -> (r: Syscall)
        ensures
            r@ == (SyscallModel { sysno, args: seq![a0], result }),
    {
        let mut args = Vec::new();
        args.push(a0);
        assert(args@ =~= seq![a0]);
        Syscall { sysno, args, result }
    }

    /// A call that takes two argument words.
    pub fn new2(sysno: Sysno, result: ResultType, a0: isize, a1: isize) -> (r: Syscall)
        ensures
            r@ == (SyscallModel { sysno, args: seq![a0, a1], result }),
    {
        let mut args = Vec::new();
        args.push(a0);
        args.push(a1);
        assert(args@ =~= seq![a0, a1]);
        Syscall { sysno, args, result }
    }

    /// A call that takes three argument words.
    pub fn new3(sysno: Sysno, result: ResultType, a0: isize, a1: isize, a2: isize) -> (r: Syscall)
        ensures
            r@ == (SyscallModel { sysno, args: seq![a0, a1, a2], result }),
    {
        let mut args = Vec::new();
        args.push(a0);
        args.push(a1);
        args.push(a2);
        assert(args@ =~= seq![a0, a1, a2]);
        Syscall { sysno, args, result }
    }

    /// A call that takes five argument words.
    pub fn new5(
        sysno: Sysno,
        result: ResultType,
        a0: isize,
        a1: isize,
        a2: isize,
        a3: isize,
        a4: isize,
    ) -> (r: Syscall)
        ensures
            r@ == (SyscallModel { sysno, args: seq![a0, a1, a2, a3, a4], result }),
    {
        let mut args = Vec::new();
        args.push(a0);
        args.push(a1);
        args.push(a2);
        args.push(a3);
        args.push(a4);
        assert(args@ =~= seq![a0, a1, a2, a3, a4]);
        Syscall { sysno, args, result }
    }

    /// A call that takes six argument words.
    pub fn new6(
        sysno: Sysno,
        result: ResultType,
        a0: isize,
        a1: isize,
        a2: isize,
        a3: isize,
        a4: isize,
        a5: isize,
    ) -> (r: Syscall)
        ensures
            r@ == (SyscallModel { sysno, args: seq![a0, a1, a2, a3, a4, a5], result }),
    {
        let mut args = Vec::new();
        args.push(a0);
        args.push(a1);
        args.push(a2);
        args.push(a3);
        args.push(a4);
        args.push(a5);
        assert(args@ =~= seq![a0, a1, a2, a3, a4, a5]);
        Syscall { sysno, args, result }
    }
}

/// What a prepared Linux 1.0 call is.
pub ghost struct LegacySyscallModel {
    pub sysno: linux_1_0::Sysno,
    pub args: Seq<isize>,
    pub result: ResultType,
}

impl LegacySyscallModel {
    /// The Linux 1.0 entry of the call reads exactly its words.
    pub open spec fn serves(self) -> bool {
        self.args.len() == linux_1_0_arity(self.sysno)
    }
}

/// A system call of the Linux 1.0 x86 ABI ready to be issued. It never holds
/// more words than there are argument registers.
#[derive(Debug)]
pub struct LegacySyscall {
    sysno: linux_1_0::Sysno,
    args: Vec<isize>,
    result: ResultType,
}

impl View for LegacySyscall {
    type V = LegacySyscallModel;

    closed spec fn view(&self) -> LegacySyscallModel {
        LegacySyscallModel { sysno: self.sysno, args: self.args@, result: self.result }
    }
}

impl LegacySyscall {
    #[verifier::type_invariant]
    spec fn fits_registers(self) -> bool {
        self.args.len() <= 6
    }

    /// The Linux 1.0 entry the call selects.
    pub fn sysno(&self) -> (s: linux_1_0::Sysno)
        ensures
            s == self@.sysno,
    {
        self.sysno
    }

    /// The argument words, first argument first; never more than six.
    pub fn args(&self) -> (a: &Vec<isize>)
        ensures
            a@ == self@.args,
            a@.len() <= 6,
    {
        proof {
            use_type_invariant(self);
        }
        &self.args
    }

    /// The C type the answer is read as.
    pub fn result(&self) -> (t: ResultType)
        ensures
            t == self@.result,
    {
        self.result
    }

    /// The number that selects the call on a Linux 1.0 x86 kernel and the six
    /// argument registers.
    pub fn registers(&self) -> (r: (isize, [isize; 6]))
        ensures
            r.0 == linux_1_0_number(self@.sysno),
            fills_registers(r.1, self@.args),
            forall|i: int|
                0 <= i < 6 ==> r.1[i] == (if i < self@.args.len() { self@.args[i] } else { 0isize }),
    {
        proof {
            use_type_invariant(self);
        }
        (self.sysno.number(), pad_registers(&self.args))
    }

    /// The kernel's answer `raw` to this call, read as the call's C type.
    pub fn answer(&self, raw: isize) -> (r: Answer)
        ensures
            r == read_answer(self@.result, raw),
            answer_keeps_word(self@.result, raw, r),
    {
        read(self.result, raw)
    }

    /// A Linux 1.0 call that takes two argument words.
    pub fn new2(sysno: linux_1_0::Sysno, result: ResultType, a0: isize, a1: isize) -> (r:
        LegacySyscall)
        ensures
            r@ == (LegacySyscallModel { sysno, args: seq![a0, a1], result }),
    {
        let mut args = Vec::new();
        args.push(a0);
        args.push(a1);
        assert(args@ =~= seq![a0, a1]);
        LegacySyscall { sysno, args, result }
    }

    /// A Linux 1.0 call that takes four argument words.
    pub fn new4(
        sysno: linux_1_0::Sysno,
        result: ResultType,
        a0: isize,
        a1: isize,
        a2: isize,
        a3: isize,
    ) -> (r: LegacySyscall)
        ensures
            r@ == (LegacySyscallModel { sysno, args: seq![a0, a1, a2, a3], result }),
    {
        let mut args = Vec::new();
        args.push(a0);
        args.push(a1);
        args.push(a2);
        args.push(a3);
        assert(args@ =~= seq![a0, a1, a2, a3]);
        LegacySyscall { sysno, args, result }
    }
}

/// Reads the kernel's answer as a C `int`: the low 32 bits of the word. A
/// word that fits an `int`, every `-errno` among them, comes back unchanged.
pub fn int_result(raw: isize) -> (r: Int)
    ensures
        r == raw as Int,
        i32::MIN <= raw <= i32::MAX ==> r == raw,
{
    #[verifier::truncate]
    (raw as Int)
}

/// Reads the kernel's answer as a C `unsigned int`: the low 32 bits of the
/// word.
pub fn unsigned_int_result(raw: isize) -> (r: UnsignedInt)
    ensures
        r == raw as UnsignedInt,
        0 <= raw <= u32::MAX ==> r == raw,
{
    #[verifier::truncate]
    (raw as UnsignedInt)
}

/// Reads the kernel's answer as a C `unsigned long`: the same word, read
/// without sign, so that nothing of it is lost.
pub fn unsigned_long_result(raw: isize) -> (r: UnsignedLong)
    ensures
        r == raw as UnsignedLong,
        0 <= raw ==> r == raw,
        r as isize == raw,
{
    proof {
        assert((raw as usize) as isize == raw) by (bit_vector);
    }
    #[verifier::truncate]
    (raw as UnsignedLong)
}

/// Reads the kernel's answer as a legacy 16-bit user ID: the low 16 bits of
/// the word.
pub fn old_uid_result(raw: isize) -> (r: OldUidT)
    ensures
        r == raw as OldUidT,
        0 <= raw <= u16::MAX ==> r == raw,
{
    #[verifier::truncate]
    (raw as OldUidT)
}

/// Reads the kernel's answer as a legacy 16-bit group ID: the low 16 bits of
/// the word.
pub fn old_gid_result(raw: isize) -> (r: OldGidT)
    ensures
        r == raw as OldGidT,
        0 <= raw <= u16::MAX ==> r == raw,
{
    #[verifier::truncate]
    (raw as OldGidT)
}

} // verus!
