//! x86-64 instruction decoding through `iced_x86`.
//!
//! The decoder is called on plain bytes; each decoded instruction is handed
//! to the rest of the library as the values it reads of it.
use vstd::prelude::*;

verus! {

/// `iced_x86::Mnemonic::INVALID`.
pub const MNEMONIC_INVALID: u16 = 0;

/// `iced_x86::Mnemonic::Mov`.
pub const MNEMONIC_MOV: u16 = 414;

/// `iced_x86::Mnemonic::Ret`.
pub const MNEMONIC_RET: u16 = 662;

/// `iced_x86::OpKind::Register`.
pub const OP_KIND_REGISTER: u8 = 0;

/// `iced_x86::OpKind::Memory`.
pub const OP_KIND_MEMORY: u8 = 24;

/// `iced_x86::Register::None`.
pub const REGISTER_NONE: u8 = 0;

/// `iced_x86::Register::RAX`.
pub const REGISTER_RAX: u8 = 53;

/// `iced_x86::Register::RCX`.
pub const REGISTER_RCX: u8 = 54;

/// Longest x86 instruction, in bytes.
pub const MAX_INSTRUCTION_LENGTH: usize = 15;

/// The parts of a decoded instruction that the library reads. Enumerations
/// of `iced_x86` are carried by their discriminant.
#[derive(Clone, Copy, Debug, PartialEq, Eq, Structural)]
pub struct DecodedInstruction {
    pub mnemonic: u16,
    pub len: usize,
    pub op0_kind: u8,
    pub op0_register: u8,
    pub op1_kind: u8,
    pub memory_base: u8,
    pub memory_index: u8,
    pub memory_segment: u8,
    pub memory_displacement64: u64,
    pub is_ip_rel_memory_operand: bool,
}

/// The instruction that 64-bit decoding with `iced_x86` finds at position
/// `pos` of `code` when that instruction's address is `ip`.
pub uninterp spec fn decoded_at(code: Seq<u8>, ip: u64, pos: nat) -> DecodedInstruction;

/// `iced_x86::Decoder::decode` in 64-bit mode with default options, on the
/// instruction at position `pos` of `code` whose address is `ip`.
///
/// The result is named by [`decoded_at`]. Of it, the contract states only
/// what the decoder's source shows of every call at a valid position: the
/// instruction takes at least one byte, at most 15, and no byte past the end
/// of `code`.
#[verifier::external_body]
pub(crate) fn decode_at(code: &[u8], ip: u64, pos: usize) -> (r: DecodedInstruction)
    requires
        pos < code@.len(),
    ensures
        r == decoded_at(code@, ip, pos as nat),
        1 <= r.len <= MAX_INSTRUCTION_LENGTH,
        pos + r.len <= code@.len(),
{
    let mut decoder = iced_x86::Decoder::with_ip(64, code, ip, iced_x86::DecoderOptions::NONE);
    let _ = decoder.set_position(pos);
    let insn = decoder.decode();
    DecodedInstruction {
        mnemonic: insn.mnemonic() as u16,
        len: insn.len(),
        op0_kind: insn.op0_kind() as u8,
        op0_register: insn.op0_register() as u8,
        op1_kind: insn.op1_kind() as u8,
        memory_base: insn.memory_base() as u8,
        memory_index: insn.memory_index() as u8,
        memory_segment: insn.memory_segment() as u8,
        memory_displacement64: insn.memory_displacement64(),
        is_ip_rel_memory_operand: insn.is_ip_rel_memory_operand(),
    }
}

} // verus!
