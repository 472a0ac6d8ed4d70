//! Inline hooks for x86-64 kernel code.
//!
//! A [`KHook`] redirects execution from a source function to a destination
//! while keeping the overwritten instructions in an executable trampoline
//! that jumps back into the source function.
//!
//! Two jump encodings are produced:
//!
//! - a relative jump, `E9 rel32` (5 bytes), whenever the destination lies
//!   within the signed 32-bit range of the jump;
//! - otherwise an absolute jump, `mov rax, imm64; jmp rax` with a REX.W
//!   prefix on the `jmp` (`48 B8 imm64 48 FF E0`, 13 bytes).
//!
//! The hook saves the leading instructions of the source function, at least
//! [`MAX_HOOK_SIZE`] bytes of them. Instructions that address memory relative
//! to `RIP` are not relocated: hook creation refuses them unless
//! `ignore_rip_relative` is set.
//!
//! Reading and patching kernel memory, and allocating the trampoline, are
//! done by the caller-supplied closures.
use vstd::prelude::*;
use vstd::bytes::{spec_u32_to_le_bytes, spec_u32_from_le_bytes, spec_u64_to_le_bytes, spec_u64_from_le_bytes};
use crate::disasm::{decode_at, decoded_at, DecodedInstruction, MNEMONIC_INVALID};

verus! {

/// REX prefix with the W bit, placed before the absolute `jmp rax`.
pub const REX_W: u8 = 0x48;

/// Size, in bytes, of a relative `jmp rel32` instruction.
pub const HOOK_SIZE_RELATIVE: usize = 5;

/// Room reserved for the absolute jump sequence `mov rax, imm64; jmp rax`.
pub const HOOK_SIZE_ABSOLUTE: usize = 13;

/// Largest hook sequence emitted by this module.
pub const MAX_HOOK_SIZE: usize = 13;

/// Size of `mov r64, imm64`.
pub const MOV_ABS_SIZE: usize = 10;

/// Largest size of `jmp r64`.
pub const JMP_REG_MAX_SIZE: usize = 3;

/// Number of bytes of the source function that are read to find the
/// instructions a hook overwrites.
pub const HOOK_SCAN_SIZE: usize = 29;

/// Errors that can occur while constructing a hook.
#[derive(Debug, Clone, Copy, PartialEq, Eq, Structural)]
pub enum KhookErr {
    /// A RIP-relative instruction was encountered.
    InsnRel,
    /// The instruction decoder encountered an invalid instruction.
    InvalidInsn,
    /// Failed to allocate the executable trampoline.
    AllocationFailed,
}

/// The sixteen 64-bit general purpose registers.
#[derive(Debug, Clone, Copy, PartialEq, Eq, Structural)]
pub enum Gpr64 {
    RAX,
    RCX,
    RDX,
    RBX,
    RSP,
    RBP,
    RSI,
    RDI,
    R8,
    R9,
    R10,
    R11,
    R12,
    R13,
    R14,
    R15,
}

impl Gpr64 {
    /// The low three bits of the register's number.
    pub open spec fn spec_low_bits(self) -> u8 {
        match self {
            Gpr64::RAX | Gpr64::R8 => 0,
            Gpr64::RCX | Gpr64::R9 => 1,
            Gpr64::RDX | Gpr64::R10 => 2,
            Gpr64::RBX | Gpr64::R11 => 3,
            Gpr64::RSP | Gpr64::R12 => 4,
            Gpr64::RBP | Gpr64::R13 => 5,
            Gpr64::RSI | Gpr64::R14 => 6,
            Gpr64::RDI | Gpr64::R15 => 7,
        }
    }

    /// Whether the register is one of `R8`..`R15`, which need a REX.B prefix.
    pub open spec fn spec_is_extended(self) -> bool {
        match self {
            Gpr64::R8 | Gpr64::R9 | Gpr64::R10 | Gpr64::R11 | Gpr64::R12 | Gpr64::R13 | Gpr64::R14
            | Gpr64::R15 => true,
            _ => false,
        }
    }

    pub fn low_bits(&self) -> (r: u8)
        ensures
            r == self.spec_low_bits(),
    {
        match self {
            Gpr64::RAX | Gpr64::R8 => 0,
            Gpr64::RCX | Gpr64::R9 => 1,
            Gpr64::RDX | Gpr64::R10 => 2,
            Gpr64::RBX | Gpr64::R11 => 3,
            Gpr64::RSP | Gpr64::R12 => 4,
            Gpr64::RBP | Gpr64::R13 => 5,
            Gpr64::RSI | Gpr64::R14 => 6,
            Gpr64::RDI | Gpr64::R15 => 7,
        }
    }

    pub fn is_extended(&self) -> (r: bool)
        ensures
            r == self.spec_is_extended(),
    {
        match self {
            Gpr64::R8 | Gpr64::R9 | Gpr64::R10 | Gpr64::R11 | Gpr64::R12 | Gpr64::R13 | Gpr64::R14
            | Gpr64::R15 => true,
            _ => false,
        }
    }
}

/// Encoding of `mov reg, imm64`: REX.W (with REX.B for `R8`..`R15`), the
/// opcode `B8+r`, then the immediate in little-endian order.
pub open spec fn mov_immediate_bytes(reg: Gpr64, imm64: u64) -> Seq<u8> {
    seq![
        if reg.spec_is_extended() { 0x49u8 } else { 0x48u8 },
        (0xb8 + reg.spec_low_bits()) as u8,
    ] + spec_u64_to_le_bytes(imm64)
}

/// Encoding of `jmp reg`: optional REX.B, `FF`, then ModRM `11 100 rrr`.
pub open spec fn jmp_on_reg_bytes(reg: Gpr64) -> Seq<u8> {
    let modrm = (0xe0u8 | reg.spec_low_bits()) as u8;
    if reg.spec_is_extended() {
        seq![0x41u8, 0xffu8, modrm]
    } else {
        seq![0xffu8, modrm]
    }
}

/// Encoding of `jmp rel32`.
pub open spec fn jmp_rel32_bytes(offset: i32) -> Seq<u8> {
    seq![0xe9u8] + spec_u32_to_le_bytes(offset as u32)
}

/// The displacement of a relative jump placed at `stub_addr` toward
/// `target_addr`, in 64-bit two's complement arithmetic.
pub open spec fn rel_offset(stub_addr: u64, target_addr: u64) -> i64 {
    vstd::wrapping::i64_specs::wrapping_sub(
        target_addr as i64,
        vstd::wrapping::i64_specs::wrapping_add(stub_addr as i64, HOOK_SIZE_RELATIVE as i64),
    )
}

/// Whether a displacement fits a `jmp rel32`.
pub open spec fn fits_rel32(rel: i64) -> bool {
    i32::MIN <= rel <= i32::MAX
}

/// The jump placed at `stub_addr` that transfers control to `target_addr`:
/// relative when the displacement fits 32 bits, absolute through `RAX`
/// otherwise.
pub open spec fn assembly_jump_bytes(stub_addr: u64, target_addr: u64) -> Seq<u8> {
    let rel = rel_offset(stub_addr, target_addr);
    if fits_rel32(rel) {
        jmp_rel32_bytes(rel as i32)
    } else {
        mov_immediate_bytes(Gpr64::RAX, target_addr) + seq![REX_W] + jmp_on_reg_bytes(Gpr64::RAX)
    }
}

/// Where the jump encoded by `code` sends execution when it is placed at
/// `at`: a `jmp rel32` or a `mov rax, imm64; jmp rax`; `None` for any other
/// byte sequence.
pub open spec fn jump_destination(at: u64, code: Seq<u8>) -> Option<u64> {
    if code.len() == 5 && code[0] == 0xe9u8 {
        let rel = spec_u32_from_le_bytes(code.subrange(1, 5)) as i32;
        Some(vstd::wrapping::u64_specs::wrapping_add(
            vstd::wrapping::u64_specs::wrapping_add(at, 5),
            rel as i64 as u64,
        ))
    } else if code.len() == 13 && code[0] == 0x48u8 && code[1] == 0xb8u8 && code[10] == 0x48u8
        && code[11] == 0xffu8 && code[12] == 0xe0u8 {
        Some(spec_u64_from_le_bytes(code.subrange(2, 10)))
    } else {
        None
    }
}

/// Encodes `mov reg, imm64`.
pub fn create_mov_immediat(reg: Gpr64, imm64: u64) -> (r: [u8; MOV_ABS_SIZE])
    ensures
        r@ == mov_immediate_bytes(reg, imm64),
{
    let rex: u8 = if reg.is_extended() { 0x49 } else { 0x48 };
    let opcode: u8 = 0xb8 + reg.low_bits();
    let le = vstd::bytes::u64_to_le_bytes(imm64);
    proof {
        vstd::bytes::lemma_auto_spec_u64_to_from_le_bytes();
    }
    let bytes: [u8; MOV_ABS_SIZE] = [rex, opcode, le[0], le[1], le[2], le[3], le[4], le[5], le[6], le[7]];
    assert(bytes@ =~= mov_immediate_bytes(reg, imm64));
    bytes
}

/// Encodes `jmp reg`; returns the bytes and how many of them are used.
pub fn create_jmp_on_reg(reg: Gpr64) -> (r: ([u8; JMP_REG_MAX_SIZE], usize))
    ensures
        r.1 == jmp_on_reg_bytes(reg).len(),
        r.1 <= JMP_REG_MAX_SIZE,
        r.0@.subrange(0, r.1 as int) == jmp_on_reg_bytes(reg),
        r.0@.subrange(r.1 as int, JMP_REG_MAX_SIZE as int) == Seq::new((JMP_REG_MAX_SIZE - r.1) as nat, |i: int| 0u8),
{
    let modrm: u8 = 0xe0 | reg.low_bits();
    if reg.is_extended() {
        let bytes: [u8; JMP_REG_MAX_SIZE] = [0x41, 0xff, modrm];
        assert(bytes@.subrange(0, 3) =~= jmp_on_reg_bytes(reg));
        assert(bytes@.subrange(3, 3) =~= Seq::new(0, |i: int| 0u8));
        (bytes, 3)
    } else {
        let bytes: [u8; JMP_REG_MAX_SIZE] = [0xff, modrm, 0];
        assert(bytes@.subrange(0, 2) =~= jmp_on_reg_bytes(reg));
        assert(bytes@.subrange(2, 3) =~= Seq::new(1, |i: int| 0u8));
        (bytes, 2)
    }
}

/// Encodes `jmp rel32`.
pub fn create_jmp_rel32(offset: i32) -> (r: [u8; HOOK_SIZE_RELATIVE])
    ensures
        r@ == jmp_rel32_bytes(offset),
{
    let le = vstd::bytes::u32_to_le_bytes(offset as u32);
    proof {
        vstd::bytes::lemma_auto_spec_u32_to_from_le_bytes();
    }
    let bytes: [u8; HOOK_SIZE_RELATIVE] = [0xe9, le[0], le[1], le[2], le[3]];
    assert(bytes@ =~= jmp_rel32_bytes(offset));
    bytes
}

/// Appends `bytes` to `v`.
fn push_all(v: &mut Vec<u8>, bytes: &[u8])
    ensures
        final(v)@ == old(v)@ + bytes@,
{
    let mut i: usize = 0;
    while i < bytes.len()
        invariant
            i <= bytes@.len(),
            v@ == old(v)@ + bytes@.subrange(0, i as int),
        decreases bytes@.len() - i,
    {
        v.push(bytes[i]);
        i = i + 1;
        assert(v@ =~= old(v)@ + bytes@.subrange(0, i as int));
    }
    assert(bytes@.subrange(0, i as int) =~= bytes@);
}

/// Builds the jump placed at `stub_addr` that reaches `target_addr`: a
/// relative jump when the displacement fits in 32 bits, otherwise
/// `mov rax, target; jmp rax` (the `jmp` with a REX.W prefix, 13 bytes in all).
pub fn create_assembly_jump(stub_addr: u64, target_addr: u64) -> (r: Vec<u8>)
    ensures
        r@ == assembly_jump_bytes(stub_addr, target_addr),
{
    let rel: i64 = (target_addr as i64).wrapping_sub((stub_addr as i64).wrapping_add(HOOK_SIZE_RELATIVE as i64));
    if i32::MIN as i64 <= rel && rel <= i32::MAX as i64 {
        let jmp = create_jmp_rel32(rel as i32);
        let mut bytes: Vec<u8> = Vec::new();
        push_all(&mut bytes, &jmp);
        bytes
    } else {
        let mut bytes: Vec<u8> = Vec::with_capacity(HOOK_SIZE_ABSOLUTE);
        let mov = create_mov_immediat(Gpr64::RAX, target_addr);
        push_all(&mut bytes, &mov);
        bytes.push(REX_W);
        let (jmp, len) = create_jmp_on_reg(Gpr64::RAX);
        push_all(&mut bytes, &jmp[0..len]);
        bytes
    }
}

} // verus!

verus! {

proof fn lemma_u64_as_i64(x: u64)
    ensures
        x < 0x8000_0000_0000_0000 ==> x as i64 as int == x as int,
        x >= 0x8000_0000_0000_0000 ==> x as i64 as int == x as int - 0x1_0000_0000_0000_0000,
{
    assert(x < 0x8000_0000_0000_0000 ==> x as i64 == x) by (bit_vector);
    assert(x >= 0x8000_0000_0000_0000u64 ==> (x as i64) as int == x as int - 0x1_0000_0000_0000_0000) by (bit_vector);
}

/// The jump built for `stub_addr` sends execution to `target_addr`.
pub proof fn lemma_assembly_jump_reaches_target(stub_addr: u64, target_addr: u64)
    ensures
        jump_destination(stub_addr, assembly_jump_bytes(stub_addr, target_addr)) == Some(target_addr),
{
    let rel = rel_offset(stub_addr, target_addr);
    let code = assembly_jump_bytes(stub_addr, target_addr);
    vstd::bytes::lemma_auto_spec_u32_to_from_le_bytes();
    vstd::bytes::lemma_auto_spec_u64_to_from_le_bytes();
    lemma_u64_as_i64(stub_addr);
    lemma_u64_as_i64(target_addr);
    if fits_rel32(rel) {
        let r32 = rel as i32;
        assert(code.subrange(1, 5) =~= spec_u32_to_le_bytes(#[verifier::truncate] (r32 as u32)));
        assert((r32 as u32) as i32 == r32) by (bit_vector);
        let d = #[verifier::truncate] (rel as i32 as i64 as u64);
        assert(d as int == if rel >= 0 { rel as int } else { rel as int + 0x1_0000_0000_0000_0000 }) by {
            assert(rel as i32 as i64 == rel);
            lemma_i64_as_u64(rel);
        }
        assert(vstd::wrapping::u64_specs::wrapping_add(
            vstd::wrapping::u64_specs::wrapping_add(stub_addr, 5),
            d,
        ) == target_addr);
        assert(spec_u32_from_le_bytes(code.subrange(1, 5)) == r32 as u32);
        assert(code.len() == 5 && code[0] == 0xe9u8);
    } else {
        assert(spec_u64_to_le_bytes(target_addr).len() == 8);
        assert(code.subrange(2, 10) =~= spec_u64_to_le_bytes(target_addr));
        assert(code.len() == 13);
        assert((0xe0u8 | 0u8) == 0xe0u8) by (bit_vector);
        assert(code[0] == 0x48u8 && code[1] == 0xb8u8 && code[10] == 0x48u8 && code[11] == 0xffu8 && code[12] == 0xe0u8);
    }
}

proof fn lemma_i64_as_u64(x: i64)
    ensures
        x >= 0 ==> x as u64 as int == x as int,
        x < 0 ==> x as u64 as int == x as int + 0x1_0000_0000_0000_0000,
{
    assert(x >= 0 ==> x as u64 == x) by (bit_vector);
    assert(x < 0 ==> (x as u64) as int == x as int + 0x1_0000_0000_0000_0000) by (bit_vector);
}

} // verus!

verus! {

/// How many bytes of the saved prologue are still to be covered.
pub open spec fn scan_remaining(copied: nat) -> nat {
    if copied < MAX_HOOK_SIZE {
        (MAX_HOOK_SIZE - copied) as nat
    } else {
        0
    }
}

/// The instructions a hook overwrites, decoded from `code` (the first bytes
/// of the source function at `src`), from offset `copied` on: whole
/// instructions are taken until at least [`MAX_HOOK_SIZE`] bytes are
/// covered. An invalid instruction, or a RIP-relative one unless
/// `ignore_rip_relative`, ends the scan with an error.
pub open spec fn scan_prologue(code: Seq<u8>, src: u64, ignore_rip_relative: bool, copied: nat) -> Result<nat, KhookErr>
    decreases scan_remaining(copied),
{
    if copied >= MAX_HOOK_SIZE {
        Ok(copied)
    } else {
        let insn = decoded_at(code, vstd::wrapping::u64_specs::wrapping_add(src, copied as u64), copied);
        if insn.mnemonic == MNEMONIC_INVALID {
            Err(KhookErr::InvalidInsn)
        } else if insn.is_ip_rel_memory_operand && !ignore_rip_relative {
            Err(KhookErr::InsnRel)
        } else if insn.len == 0 {
            Err(KhookErr::InvalidInsn)
        } else {
            scan_prologue(code, src, ignore_rip_relative, (copied + insn.len) as nat)
        }
    }
}

/// The instruction the prologue scan decodes at offset `k` of `code`, for
/// the source function at `src`.
pub open spec fn prologue_insn(code: Seq<u8>, src: u64, k: nat) -> DecodedInstruction {
    decoded_at(code, vstd::wrapping::u64_specs::wrapping_add(src, k as u64), k)
}

/// `bounds` are consecutive instruction boundaries of `code` from its
/// start: the first is offset 0 and each next one follows the instruction
/// decoded at the one before.
pub open spec fn instruction_boundaries(code: Seq<u8>, src: u64, bounds: Seq<nat>) -> bool {
    &&& bounds.len() > 0
    &&& bounds[0] == 0
    &&& forall|i: int| 0 <= i < bounds.len() - 1
        ==> #[trigger] bounds[i + 1] == bounds[i] + prologue_insn(code, src, bounds[i]).len
}

proof fn lemma_scan_path_from(code: Seq<u8>, src: u64, ignore_rip_relative: bool, n: nat, bounds: Seq<nat>, i: int)
    requires
        instruction_boundaries(code, src, bounds),
        0 <= i < bounds.len(),
        scan_prologue(code, src, ignore_rip_relative, bounds[i]) == Ok::<nat, KhookErr>(n),
        forall|k: int| 0 <= k < bounds.len() ==> #[trigger] bounds[k] < n,
    ensures
        forall|k: int| #![trigger bounds[k]] i <= k < bounds.len() ==> {
            &&& prologue_insn(code, src, bounds[k]).mnemonic != MNEMONIC_INVALID
            &&& !ignore_rip_relative ==> !prologue_insn(code, src, bounds[k]).is_ip_rel_memory_operand
        },
    decreases bounds.len() - i,
{
    let start = bounds[i];
    assert(start < n);
    let insn = prologue_insn(code, src, start);
    assert(start < MAX_HOOK_SIZE);
    assert(insn.mnemonic != MNEMONIC_INVALID);
    assert(!ignore_rip_relative ==> !insn.is_ip_rel_memory_operand);
    assert(insn.len != 0);
    assert(scan_prologue(code, src, ignore_rip_relative, (start + insn.len) as nat) == Ok::<nat, KhookErr>(n));
    if i + 1 < bounds.len() {
        assert(bounds[i + 1] == bounds[i] + prologue_insn(code, src, bounds[i]).len);
        lemma_scan_path_from(code, src, ignore_rip_relative, n, bounds, i + 1);
    }
    assert forall|k: int| #![trigger bounds[k]] i <= k < bounds.len() implies {
        &&& prologue_insn(code, src, bounds[k]).mnemonic != MNEMONIC_INVALID
        &&& !ignore_rip_relative ==> !prologue_insn(code, src, bounds[k]).is_ip_rel_memory_operand
    } by {
        if k == i {
            assert(bounds[k] == start);
        }
    }
}

/// The instructions a hook overwrites are all valid and, unless
/// `ignore_rip_relative`, none of them addresses memory relative to `RIP`:
/// when the scan covers `n` bytes, every instruction that starts at a
/// boundary before `n` is such an instruction.
pub proof fn lemma_prologue_has_no_rip_relative(code: Seq<u8>, src: u64, ignore_rip_relative: bool, n: nat, bounds: Seq<nat>)
    requires
        scan_prologue(code, src, ignore_rip_relative, 0) == Ok::<nat, KhookErr>(n),
        instruction_boundaries(code, src, bounds),
        forall|k: int| 0 <= k < bounds.len() ==> #[trigger] bounds[k] < n,
    ensures
        forall|k: int| #![trigger bounds[k]] 0 <= k < bounds.len() ==> {
            &&& prologue_insn(code, src, bounds[k]).mnemonic != MNEMONIC_INVALID
            &&& !ignore_rip_relative ==> !prologue_insn(code, src, bounds[k]).is_ip_rel_memory_operand
        },
{
    lemma_scan_path_from(code, src, ignore_rip_relative, n, bounds, 0);
}

proof fn lemma_scan_refuses_from(code: Seq<u8>, src: u64, bounds: Seq<nat>, i: int)
    requires
        instruction_boundaries(code, src, bounds),
        0 <= i < bounds.len(),
        forall|k: int| 0 <= k < bounds.len() ==> #[trigger] bounds[k] < MAX_HOOK_SIZE,
        forall|k: int| #![trigger bounds[k]] 0 <= k < bounds.len() - 1 ==> {
            &&& prologue_insn(code, src, bounds[k]).mnemonic != MNEMONIC_INVALID
            &&& !prologue_insn(code, src, bounds[k]).is_ip_rel_memory_operand
            &&& prologue_insn(code, src, bounds[k]).len > 0
        },
        prologue_insn(code, src, bounds.last()).mnemonic != MNEMONIC_INVALID,
        prologue_insn(code, src, bounds.last()).is_ip_rel_memory_operand,
    ensures
        scan_prologue(code, src, false, bounds[i]) == Err::<nat, KhookErr>(KhookErr::InsnRel),
    decreases bounds.len() - i,
{
    let start = bounds[i];
    assert(start < MAX_HOOK_SIZE);
    if i + 1 < bounds.len() {
        assert(bounds[i + 1] == bounds[i] + prologue_insn(code, src, bounds[i]).len);
        assert(prologue_insn(code, src, bounds[i]).mnemonic != MNEMONIC_INVALID);
        lemma_scan_refuses_from(code, src, bounds, i + 1);
        assert(scan_prologue(code, src, false, (start + prologue_insn(code, src, start).len) as nat)
            == Err::<nat, KhookErr>(KhookErr::InsnRel));
    } else {
        assert(bounds[i] == bounds.last());
    }
}

/// Without `ignore_rip_relative`, a RIP-relative instruction among those a
/// hook would overwrite makes the scan fail with [`KhookErr::InsnRel`]: when
/// the instructions at the boundaries before it are valid and not
/// RIP-relative, and all these boundaries lie before [`MAX_HOOK_SIZE`], the
/// scan refuses the prologue.
pub proof fn lemma_rip_relative_prologue_refused(code: Seq<u8>, src: u64, bounds: Seq<nat>)
    requires
        instruction_boundaries(code, src, bounds),
        forall|k: int| 0 <= k < bounds.len() ==> #[trigger] bounds[k] < MAX_HOOK_SIZE,
        forall|k: int| #![trigger bounds[k]] 0 <= k < bounds.len() - 1 ==> {
            &&& prologue_insn(code, src, bounds[k]).mnemonic != MNEMONIC_INVALID
            &&& !prologue_insn(code, src, bounds[k]).is_ip_rel_memory_operand
            &&& prologue_insn(code, src, bounds[k]).len > 0
        },
        prologue_insn(code, src, bounds.last()).mnemonic != MNEMONIC_INVALID,
        prologue_insn(code, src, bounds.last()).is_ip_rel_memory_operand,
    ensures
        scan_prologue(code, src, false, 0) == Err::<nat, KhookErr>(KhookErr::InsnRel),
{
    lemma_scan_refuses_from(code, src, bounds, 0);
}

/// What the prologue scan makes of one decoded instruction: its length when
/// it can be copied into the trampoline; [`KhookErr::InvalidInsn`] for an
/// invalid instruction; [`KhookErr::InsnRel`] for a RIP-relative one, unless
/// `ignore_rip_relative`.
pub fn prologue_step(insn: &DecodedInstruction, ignore_rip_relative: bool) -> (r: Result<usize, KhookErr>)
    ensures
        insn.mnemonic == MNEMONIC_INVALID ==> r == Err::<usize, KhookErr>(KhookErr::InvalidInsn),
        insn.mnemonic != MNEMONIC_INVALID && insn.is_ip_rel_memory_operand && !ignore_rip_relative
            ==> r == Err::<usize, KhookErr>(KhookErr::InsnRel),
        insn.mnemonic != MNEMONIC_INVALID && !(insn.is_ip_rel_memory_operand && !ignore_rip_relative)
            ==> r == Ok::<usize, KhookErr>(insn.len),
{
    if insn.mnemonic == MNEMONIC_INVALID {
        return Err(KhookErr::InvalidInsn);
    }
    if insn.is_ip_rel_memory_operand && !ignore_rip_relative {
        return Err(KhookErr::InsnRel);
    }
    Ok(insn.len)
}

/// Finds how many leading bytes of the source function a hook overwrites:
/// the length of the whole instructions that cover [`MAX_HOOK_SIZE`] bytes.
/// `code` holds the first [`HOOK_SCAN_SIZE`] bytes of the function at `src`.
pub fn hook_prologue_length(src: u64, code: &[u8], ignore_rip_relative: bool) -> (r: Result<usize, KhookErr>)
    requires
        code@.len() == HOOK_SCAN_SIZE,
    ensures
        match r {
            Ok(n) => scan_prologue(code@, src, ignore_rip_relative, 0) == Ok::<nat, KhookErr>(n as nat),
            Err(e) => scan_prologue(code@, src, ignore_rip_relative, 0) == Err::<nat, KhookErr>(e),
        },
        r matches Ok(n) ==> MAX_HOOK_SIZE <= n < MAX_HOOK_SIZE + 15,
{
    let mut copied: usize = 0;
    while copied < MAX_HOOK_SIZE
        invariant
            copied < MAX_HOOK_SIZE + 15,
            code@.len() == HOOK_SCAN_SIZE,
            scan_prologue(code@, src, ignore_rip_relative, 0) == scan_prologue(code@, src, ignore_rip_relative, copied as nat),
        decreases scan_remaining(copied as nat),
    {
        let inst = decode_at(code, src.wrapping_add(copied as u64), copied);
        match prologue_step(&inst, ignore_rip_relative) {
            Ok(len) => copied = copied + len,
            Err(e) => return Err(e),
        }
    }
    Ok(copied)
}

/// The trampoline placed at `stub`: the saved instructions, then a jump back
/// to the first instruction of the source function at `src` that follows
/// them, then zero padding up to [`HOOK_SIZE_ABSOLUTE`] bytes after the
/// saved instructions.
pub open spec fn trampoline_bytes(original: Seq<u8>, stub: u64, src: u64) -> Seq<u8> {
    let copied = original.len() as u64;
    let jump = assembly_jump_bytes(
        vstd::wrapping::u64_specs::wrapping_add(stub, copied),
        vstd::wrapping::u64_specs::wrapping_add(src, copied),
    );
    original + jump + Seq::new((HOOK_SIZE_ABSOLUTE - jump.len()) as nat, |i: int| 0u8)
}

proof fn lemma_assembly_jump_len(stub_addr: u64, target_addr: u64)
    ensures
        assembly_jump_bytes(stub_addr, target_addr).len() == HOOK_SIZE_RELATIVE
            || assembly_jump_bytes(stub_addr, target_addr).len() == HOOK_SIZE_ABSOLUTE,
{
    vstd::bytes::lemma_auto_spec_u32_to_from_le_bytes();
    vstd::bytes::lemma_auto_spec_u64_to_from_le_bytes();
}

/// Builds the trampoline for the saved instructions `original`, placed at
/// `stub`, returning to the source function at `src`.
pub fn build_trampoline(original: &[u8], stub: u64, src: u64) -> (r: Vec<u8>)
    requires
        original@.len() < MAX_HOOK_SIZE + 15,
    ensures
        r@ == trampoline_bytes(original@, stub, src),
        r@.len() == original@.len() + HOOK_SIZE_ABSOLUTE,
{
    let copied = original.len();
    let jump = create_assembly_jump(stub.wrapping_add(copied as u64), src.wrapping_add(copied as u64));
    proof {
        lemma_assembly_jump_len(
            vstd::wrapping::u64_specs::wrapping_add(stub, copied as u64),
            vstd::wrapping::u64_specs::wrapping_add(src, copied as u64),
        );
    }
    let mut image: Vec<u8> = Vec::with_capacity(copied + HOOK_SIZE_ABSOLUTE);
    push_all(&mut image, original);
    push_all(&mut image, jump.as_slice());
    let pad = HOOK_SIZE_ABSOLUTE - jump.len();
    let mut i: usize = 0;
    while i < pad
        invariant
            i <= pad,
            pad == HOOK_SIZE_ABSOLUTE - jump@.len(),
            image@ == original@ + jump@ + Seq::new(i as nat, |k: int| 0u8),
        decreases pad - i,
    {
        image.push(0u8);
        i = i + 1;
        assert(image@ =~= original@ + jump@ + Seq::new(i as nat, |k: int| 0u8));
    }
    image
}

/// What a hook holds: where it patches and jumps to, its trampoline, the
/// saved instructions, and whether it is installed.
pub struct KHookView {
    pub src: u64,
    pub dst: u64,
    pub original_stub: u64,
    pub stub_image: Seq<u8>,
    pub original_bytes: Seq<u8>,
    pub enabled: bool,
}

/// An installed or installable inline kernel hook.
///
/// It knows the address of the hooked function, the destination, the
/// trampoline (its address and the bytes it must hold) and the saved bytes
/// that the hook overwrites.
pub struct KHook {
    src: u64,
    dst: u64,
    original_stub: u64,
    stub_image: Vec<u8>,
    original_bytes: Vec<u8>,
    enabled: bool,
}

impl View for KHook {
    type V = KHookView;

    closed spec fn view(&self) -> KHookView {
        KHookView {
            src: self.src,
            dst: self.dst,
            original_stub: self.original_stub,
            stub_image: self.stub_image@,
            original_bytes: self.original_bytes@,
            enabled: self.enabled,
        }
    }
}

/// The outcome of creating a hook once the trampoline allocation answered
/// `stub`: a failure without memory, otherwise a disabled hook holding the
/// saved instructions and the trampoline image for that address.
pub open spec fn hook_created(r: Result<KHook, KhookErr>, stub: Option<u64>, src: u64, dst: u64, original: Seq<u8>) -> bool {
    match stub {
        None => r == Err::<KHook, KhookErr>(KhookErr::AllocationFailed),
        Some(addr) => match r {
            Ok(h) => h.inv() && h@ == (KHookView {
                src,
                dst,
                original_stub: addr,
                stub_image: trampoline_bytes(original, addr, src),
                original_bytes: original,
                enabled: false,
            }),
            Err(_) => false,
        },
    }
}

impl KHook {
    /// The saved instructions cover a whole hook and the trampoline image is
    /// built from them.
    pub open spec fn inv(&self) -> bool {
        &&& MAX_HOOK_SIZE <= self@.original_bytes.len() < MAX_HOOK_SIZE + 15
        &&& self@.stub_image == trampoline_bytes(self@.original_bytes, self@.original_stub, self@.src)
    }

    /// Creates a hook without installing it.
    ///
    /// `code` holds the first [`HOOK_SCAN_SIZE`] bytes of the function at
    /// `src`. After the overwritten instructions are found,
    /// `allocate_stub` is asked for executable memory of their length plus
    /// [`HOOK_SIZE_ABSOLUTE`]; the hook records the trampoline image that
    /// must be copied there.
    pub fn new<F: FnOnce(usize) -> Option<u64>>(
        src: u64,
        dst: u64,
        ignore_rip_relative: bool,
        code: &[u8],
        allocate_stub: F,
    ) -> (r: Result<KHook, KhookErr>)
        requires
            code@.len() == HOOK_SCAN_SIZE,
            scan_prologue(code@, src, ignore_rip_relative, 0) matches Ok(copied)
                ==> call_requires(allocate_stub, ((copied + HOOK_SIZE_ABSOLUTE) as usize,)),
        ensures
            scan_prologue(code@, src, ignore_rip_relative, 0) matches Err(e) ==> r == Err::<KHook, KhookErr>(e),
            scan_prologue(code@, src, ignore_rip_relative, 0) matches Ok(copied) ==> exists|stub: Option<u64>|
                {
                    &&& #[trigger] call_ensures(allocate_stub, ((copied + HOOK_SIZE_ABSOLUTE) as usize,), stub)
                    &&& hook_created(r, stub, src, dst, code@.subrange(0, copied as int))
                },
            r matches Ok(h) ==> {
                &&& MAX_HOOK_SIZE <= h@.original_bytes.len() <= MAX_HOOK_SIZE + 14
                &&& h@.original_bytes == code@.subrange(0, h@.original_bytes.len() as int)
                &&& h@.src == src && h@.dst == dst && !h@.enabled
            },
    {
        let copied = match hook_prologue_length(src, code, ignore_rip_relative) {
            Ok(n) => n,
            Err(e) => return Err(e),
        };
        let stub = allocate_stub(copied + HOOK_SIZE_ABSOLUTE);
        let ghost saved = code@.subrange(0, copied as int);
        proof {
            // The scan found `copied` bytes, and `stub` answers the request for them.
            assert(scan_prologue(code@, src, ignore_rip_relative, 0) matches Ok(cc) ==> cc == copied as nat);
            assert(call_ensures(allocate_stub, (((copied as nat) + HOOK_SIZE_ABSOLUTE) as usize,), stub));
        }
        let r = match stub {
            Some(original_stub) => {
                let original_bytes = vstd::slice::slice_to_vec(&code[0..copied]);
                let stub_image = build_trampoline(original_bytes.as_slice(), original_stub, src);
                let hook = KHook { src, dst, original_stub, stub_image, original_bytes, enabled: false };
                assert(hook@.original_bytes =~= saved);
                Ok(hook)
            },
            None => Err(KhookErr::AllocationFailed),
        };
        assert(hook_created(r, stub, src, dst, saved));
        r
    }

    /// Installs the hook: the start of the source function is overwritten
    /// with a jump to the destination through `write_to_read_only_memory`.
    /// An installed hook is left as it is and nothing is written: the write's
    /// precondition is demanded only for a hook that is not installed, and
    /// only for the patch.
    pub fn enable<F: FnOnce(u64, &[u8]) -> bool>(&mut self, write_to_read_only_memory: F) -> (r: Option<()>)
        requires
            old(self).inv(),
            !old(self)@.enabled ==> forall|b: &[u8]|
                b@ == assembly_jump_bytes(old(self)@.src, old(self)@.dst)
                    ==> #[trigger] call_requires(write_to_read_only_memory, (old(self)@.src, b)),
        ensures
            final(self).inv(),
            old(self)@.enabled ==> r == Some(()) && final(self)@ == old(self)@,
            !old(self)@.enabled ==> exists|patch: &[u8], ok: bool|
                {
                    &&& patch@ == assembly_jump_bytes(old(self)@.src, old(self)@.dst)
                    &&& #[trigger] call_ensures(write_to_read_only_memory, (old(self)@.src, patch), ok)
                    &&& ok ==> r == Some(()) && final(self)@ == (KHookView { enabled: true, ..old(self)@ })
                    &&& !ok ==> r == None::<()> && final(self)@ == old(self)@
                },
    {
        if self.enabled {
            return Some(());
        }
        let patch = create_assembly_jump(self.src, self.dst);
        let ok = write_to_read_only_memory(self.src, patch.as_slice());
        if !ok {
            return None;
        }
        self.enabled = true;
        Some(())
    }

    /// Whether the hook is currently installed.
    pub fn is_enabled(&self) -> (r: bool)
        ensures
            r == self@.enabled,
    {
        self.enabled
    }

    /// Removes the hook: when installed, the saved bytes are written
    /// back over the source function through `write_to_read_only_memory`.
    /// For a hook that is not installed nothing is written (the write's
    /// precondition is demanded only for an installed hook, and only for the
    /// saved bytes).
    pub fn disable<F: FnOnce(u64, &[u8]) -> bool>(&mut self, write_to_read_only_memory: F) -> (r: Option<()>)
        requires
            old(self).inv(),
            old(self)@.enabled ==> forall|b: &[u8]|
                b@ == old(self)@.original_bytes ==> #[trigger] call_requires(write_to_read_only_memory, (old(self)@.src, b)),
        ensures
            final(self).inv(),
            !old(self)@.enabled ==> r == Some(()) && final(self)@ == old(self)@,
            old(self)@.enabled ==> exists|restore: &[u8], ok: bool|
                {
                    &&& restore@ == old(self)@.original_bytes
                    &&& #[trigger] call_ensures(write_to_read_only_memory, (old(self)@.src, restore), ok)
                    &&& ok ==> r == Some(()) && final(self)@ == (KHookView { enabled: false, ..old(self)@ })
                    &&& !ok ==> r == None::<()> && final(self)@ == old(self)@
                },
    {
        if self.enabled {
            let ok = write_to_read_only_memory(self.src, self.original_bytes.as_slice());
            if !ok {
                return None;
            }
        }
        self.enabled = false;
        Some(())
    }

    /// Address of the trampoline: calling it runs the hooked function as it
    /// was before the hook.
    pub fn original(&self) -> (r: u64)
        ensures
            r == self@.original_stub,
    {
        self.original_stub
    }

    /// The bytes the trampoline must hold.
    pub fn trampoline(&self) -> (r: &[u8])
        ensures
            r@ == self@.stub_image,
    {
        self.stub_image.as_slice()
    }

    /// Address of the hooked function.
    pub fn source(&self) -> (r: u64)
        ensures
            r == self@.src,
    {
        self.src
    }
}

/// The jump that installing a hook writes never reaches past the saved
/// instructions, so writing them back undoes the patch entirely.
pub proof fn lemma_patch_within_saved_bytes(h: KHook)
    requires
        h.inv(),
    ensures
        assembly_jump_bytes(h@.src, h@.dst).len() <= h@.original_bytes.len(),
{
    lemma_assembly_jump_len(h@.src, h@.dst);
}

/// The trampoline returns to the source function right after the saved
/// instructions.
pub proof fn lemma_trampoline_resumes_after_prologue(h: KHook)
    requires
        h.inv(),
    ensures
        ({
            let n = h@.original_bytes.len();
            let jump = assembly_jump_bytes(
                vstd::wrapping::u64_specs::wrapping_add(h@.original_stub, n as u64),
                vstd::wrapping::u64_specs::wrapping_add(h@.src, n as u64),
            );
            &&& h@.stub_image.subrange(0, n as int) == h@.original_bytes
            &&& h@.stub_image.subrange(n as int, (n + jump.len()) as int) == jump
            &&& jump_destination(vstd::wrapping::u64_specs::wrapping_add(h@.original_stub, n as u64), jump)
                == Some(vstd::wrapping::u64_specs::wrapping_add(h@.src, n as u64))
        }),
{
    let n = h@.original_bytes.len();
    let at = vstd::wrapping::u64_specs::wrapping_add(h@.original_stub, n as u64);
    let to = vstd::wrapping::u64_specs::wrapping_add(h@.src, n as u64);
    let jump = assembly_jump_bytes(at, to);
    lemma_assembly_jump_len(at, to);
    lemma_assembly_jump_reaches_target(at, to);
    assert(h@.stub_image.subrange(0, n as int) =~= h@.original_bytes);
    assert(h@.stub_image.subrange(n as int, (n + jump.len()) as int) =~= jump);
}

/// Removing a hook that was installed, each write succeeding, gives back the
/// hook as it was before installation; what removal writes over the source
/// function is the saved prologue, which covers the whole patch.
pub proof fn lemma_disable_undoes_enable(before: KHook, installed: KHook, after: KHook)
    requires
        before.inv(),
        !before@.enabled,
        installed@ == (KHookView { enabled: true, ..before@ }),
        after@ == (KHookView { enabled: false, ..installed@ }),
    ensures
        after@ == before@,
        installed@.original_bytes == before@.original_bytes,
        assembly_jump_bytes(before@.src, before@.dst).len() <= installed@.original_bytes.len(),
{
    lemma_patch_within_saved_bytes(before);
}

/// The bytes `mem` with `bytes` written over them from offset `at` on.
pub open spec fn overwrite(mem: Seq<u8>, at: int, bytes: Seq<u8>) -> Seq<u8> {
    mem.subrange(0, at) + bytes + mem.subrange(at + bytes.len(), mem.len() as int)
}

/// Installing a hook and then removing it leaves the memory around the
/// hooked function as it was: `mem` holds that memory with the function at
/// offset `at`, its first bytes being the ones the hook saved (as
/// [`KHook::new`] saves them from the code it reads). Writing the patch that
/// installation writes, then the saved bytes that removal writes, gives `mem`
/// back.
pub proof fn lemma_disable_restores_memory(h: KHook, mem: Seq<u8>, at: int)
    requires
        h.inv(),
        0 <= at,
        at + h@.original_bytes.len() <= mem.len(),
        mem.subrange(at, at + h@.original_bytes.len()) == h@.original_bytes,
    ensures
        overwrite(overwrite(mem, at, assembly_jump_bytes(h@.src, h@.dst)), at, h@.original_bytes) == mem,
{
    lemma_patch_within_saved_bytes(h);
    let patch = assembly_jump_bytes(h@.src, h@.dst);
    let saved = h@.original_bytes;
    let patched = overwrite(mem, at, patch);
    assert(patched.len() == mem.len());
    let restored = overwrite(patched, at, saved);
    assert forall|i: int| 0 <= i < mem.len() implies #[trigger] restored[i] == mem[i] by {
        if at <= i < at + saved.len() {
            assert(restored[i] == saved[i - at]);
            assert(mem.subrange(at, at + saved.len())[i - at] == mem[i]);
        }
    }
    assert(restored =~= mem);
}

} // verus!
