use std::cell::RefCell;
use winkernl::disasm::{DecodedInstruction, MNEMONIC_INVALID, MNEMONIC_MOV};
use winkernl::khook::{
    prologue_step, build_trampoline, create_assembly_jump, create_jmp_on_reg, create_jmp_rel32, create_mov_immediat,
    hook_prologue_length, Gpr64, KHook, KhookErr, HOOK_SCAN_SIZE, HOOK_SIZE_ABSOLUTE, MAX_HOOK_SIZE,
};

/// `mov [rsp+8], rbx; push rdi; sub rsp, 20h; mov rdi, rcx`: thirteen bytes.
const PROLOGUE: [u8; 13] = [0x48, 0x89, 0x5C, 0x24, 0x08, 0x57, 0x48, 0x83, 0xEC, 0x20, 0x48, 0x8B, 0xF9];

fn scan_window(prefix: &[u8]) -> Vec<u8> {
    let mut code = prefix.to_vec();
    code.resize(HOOK_SCAN_SIZE, 0xCC);
    code
}

#[test]
fn mov_immediate_encodings() {
    let b = create_mov_immediat(Gpr64::RAX, 0x1122_3344_5566_7788);
    assert_eq!(b, [0x48, 0xB8, 0x88, 0x77, 0x66, 0x55, 0x44, 0x33, 0x22, 0x11]);
    let b = create_mov_immediat(Gpr64::RDI, 1);
    assert_eq!(b[..2], [0x48, 0xBF]);
    let b = create_mov_immediat(Gpr64::R8, 1);
    assert_eq!(b[..2], [0x49, 0xB8]);
    let b = create_mov_immediat(Gpr64::R15, 0xff);
    assert_eq!(b, [0x49, 0xBF, 0xff, 0, 0, 0, 0, 0, 0, 0]);
}

#[test]
fn jmp_register_encodings() {
    assert_eq!(create_jmp_on_reg(Gpr64::RAX), ([0xFF, 0xE0, 0x00], 2));
    assert_eq!(create_jmp_on_reg(Gpr64::RSP), ([0xFF, 0xE4, 0x00], 2));
    assert_eq!(create_jmp_on_reg(Gpr64::R9), ([0x41, 0xFF, 0xE1], 3));
    assert_eq!(create_jmp_on_reg(Gpr64::R15), ([0x41, 0xFF, 0xE7], 3));
}

#[test]
fn jmp_rel32_encodings() {
    assert_eq!(create_jmp_rel32(-5), [0xE9, 0xFB, 0xFF, 0xFF, 0xFF]);
    assert_eq!(create_jmp_rel32(0x1234_5678), [0xE9, 0x78, 0x56, 0x34, 0x12]);
    assert_eq!(create_jmp_rel32(0), [0xE9, 0, 0, 0, 0]);
}

#[test]
fn assembly_jump_relative_when_near() {
    assert_eq!(create_assembly_jump(0x1000, 0x2000), vec![0xE9, 0xFB, 0x0F, 0x00, 0x00]);
    assert_eq!(create_assembly_jump(0x2000, 0x1000), vec![0xE9, 0xFB, 0xEF, 0xFF, 0xFF]);
    let kernel = 0xFFFF_F800_0000_0000u64;
    assert_eq!(create_assembly_jump(kernel, kernel + 0x1000), vec![0xE9, 0xFB, 0x0F, 0x00, 0x00]);
}

#[test]
fn assembly_jump_absolute_when_far() {
    let target = 0x0001_0000_0000_0000u64;
    let j = create_assembly_jump(0, target);
    assert_eq!(j, vec![0x48, 0xB8, 0, 0, 0, 0, 0, 0, 0x01, 0x00, 0x48, 0xFF, 0xE0]);
    assert_eq!(j.len(), HOOK_SIZE_ABSOLUTE);
    let j = create_assembly_jump(0, 0x1_0000_0000);
    assert_eq!(j, vec![0x48, 0xB8, 0, 0, 0, 0, 1, 0, 0, 0, 0x48, 0xFF, 0xE0]);
    let j = create_assembly_jump(0xFFFF_F800_0000_0000, 0x1000);
    assert_eq!(j.len(), 13);
    assert_eq!(j[..2], [0x48, 0xB8]);
    assert_eq!(j[2..10], 0x1000u64.to_le_bytes());
}

#[test]
fn assembly_jump_edges_of_rel32() {
    // rel = i32::MAX exactly: still relative.
    let j = create_assembly_jump(0, 0x7FFF_FFFF + 5);
    assert_eq!(j, vec![0xE9, 0xFF, 0xFF, 0xFF, 0x7F]);
    // one byte further: absolute.
    assert_eq!(create_assembly_jump(0, 0x7FFF_FFFF + 6).len(), 13);
}

#[test]
fn prologue_length_of_whole_instructions() {
    let code = scan_window(&PROLOGUE);
    assert_eq!(hook_prologue_length(0x20000, &code, false), Ok(13));
    // A 5-byte instruction straddling the 13th byte is taken whole.
    let mut p = vec![0x90; 10];
    p.extend_from_slice(&[0xB8, 1, 0, 0, 0]);
    assert_eq!(hook_prologue_length(0x20000, &scan_window(&p), false), Ok(15));
}

#[test]
fn prologue_with_rip_relative_instruction() {
    let mut p = vec![0x48, 0x8B, 0x05, 0x10, 0x00, 0x00, 0x00];
    p.extend_from_slice(&[0x90; 6]);
    let code = scan_window(&p);
    assert_eq!(hook_prologue_length(0x20000, &code, false), Err(KhookErr::InsnRel));
    assert_eq!(hook_prologue_length(0x20000, &code, true), Ok(13));
}

#[test]
fn prologue_with_invalid_instruction() {
    let code = scan_window(&[0x06]);
    assert_eq!(hook_prologue_length(0x20000, &code, false), Err(KhookErr::InvalidInsn));
    assert_eq!(hook_prologue_length(0x20000, &code, true), Err(KhookErr::InvalidInsn));
}

#[test]
fn trampoline_layout() {
    let t = build_trampoline(&PROLOGUE, 0x10000, 0x20000);
    assert_eq!(t.len(), 13 + HOOK_SIZE_ABSOLUTE);
    assert_eq!(t[..13], PROLOGUE);
    // jump from 0x1000d back to 0x2000d: rel = 0x2000d - 0x10012 = 0xFFFB
    assert_eq!(t[13..18], [0xE9, 0xFB, 0xFF, 0x00, 0x00]);
    assert!(t[18..].iter().all(|b| *b == 0));
}

#[test]
fn trampoline_with_absolute_return() {
    let t = build_trampoline(&PROLOGUE, 0x10000, 0xFFFF_F800_0000_0000);
    assert_eq!(t.len(), 26);
    assert_eq!(t[13..15], [0x48, 0xB8]);
    assert_eq!(t[15..23], (0xFFFF_F800_0000_0000u64 + 13).to_le_bytes());
    assert_eq!(t[23..26], [0x48, 0xFF, 0xE0]);
}

#[test]
fn hook_new_builds_trampoline() {
    let code = scan_window(&PROLOGUE);
    let asked = RefCell::new(0usize);
    let h = KHook::new(0x20000, 0x30000, false, &code, |n| {
        *asked.borrow_mut() = n;
        Some(0x10000)
    })
    .unwrap();
    assert_eq!(*asked.borrow(), 13 + HOOK_SIZE_ABSOLUTE);
    assert_eq!(h.original(), 0x10000);
    assert_eq!(h.source(), 0x20000);
    assert!(!h.is_enabled());
    assert_eq!(h.trampoline(), build_trampoline(&PROLOGUE, 0x10000, 0x20000).as_slice());
}

#[test]
fn hook_new_errors() {
    let code = scan_window(&PROLOGUE);
    assert_eq!(KHook::new(0x20000, 0x30000, false, &code, |_| None).err(), Some(KhookErr::AllocationFailed));
    let bad = scan_window(&[0x06]);
    let called = RefCell::new(false);
    let r = KHook::new(0x20000, 0x30000, false, &bad, |_| {
        *called.borrow_mut() = true;
        Some(1)
    });
    assert_eq!(r.err(), Some(KhookErr::InvalidInsn));
    assert!(!*called.borrow());
}

#[test]
fn hook_enable_then_disable_restores_bytes() {
    let code = scan_window(&PROLOGUE);
    let mut h = KHook::new(0x20000, 0x30000, false, &code, |_| Some(0x10000)).unwrap();
    let writes: RefCell<Vec<(u64, Vec<u8>)>> = RefCell::new(Vec::new());
    assert_eq!(h.enable(|a, b| {
        writes.borrow_mut().push((a, b.to_vec()));
        true
    }), Some(()));
    assert!(h.is_enabled());
    // enabling again writes nothing
    assert_eq!(h.enable(|_, _| panic!("no write expected")), Some(()));
    assert_eq!(h.disable(|a, b| {
        writes.borrow_mut().push((a, b.to_vec()));
        true
    }), Some(()));
    assert!(!h.is_enabled());
    assert_eq!(h.disable(|_, _| panic!("no write expected")), Some(()));
    let w = writes.borrow();
    assert_eq!(w.len(), 2);
    assert_eq!(w[0], (0x20000, vec![0xE9, 0xFB, 0xFF, 0x00, 0x00]));
    assert_eq!(w[1], (0x20000, PROLOGUE.to_vec()));
    assert!(w[0].1.len() <= MAX_HOOK_SIZE);
}

#[test]
fn hook_enable_failure_keeps_state() {
    let code = scan_window(&PROLOGUE);
    let mut h = KHook::new(0x20000, 0x30000, false, &code, |_| Some(0x10000)).unwrap();
    assert_eq!(h.enable(|_, _| false), None);
    assert!(!h.is_enabled());
    assert_eq!(h.enable(|_, _| true), Some(()));
    assert_eq!(h.disable(|_, _| false), None);
    assert!(h.is_enabled());
}

#[test]
fn register_numbers() {
    assert_eq!(Gpr64::R13.low_bits(), 5);
    assert!(Gpr64::R13.is_extended());
    assert!(!Gpr64::RBP.is_extended());
}

fn insn(mnemonic: u16, len: usize, rip_relative: bool) -> DecodedInstruction {
    DecodedInstruction {
        mnemonic,
        len,
        op0_kind: 0,
        op0_register: 0,
        op1_kind: 0,
        memory_base: 0,
        memory_index: 0,
        memory_segment: 0,
        memory_displacement64: 0,
        is_ip_rel_memory_operand: rip_relative,
    }
}

#[test]
fn prologue_step_decisions() {
    assert_eq!(prologue_step(&insn(MNEMONIC_MOV, 7, false), false), Ok(7));
    assert_eq!(prologue_step(&insn(MNEMONIC_MOV, 7, true), false), Err(KhookErr::InsnRel));
    assert_eq!(prologue_step(&insn(MNEMONIC_MOV, 7, true), true), Ok(7));
    assert_eq!(prologue_step(&insn(MNEMONIC_INVALID, 1, true), true), Err(KhookErr::InvalidInsn));
}

#[test]
fn absolute_jump_for_a_distant_target_is_thirteen_bytes() {
    let j = create_assembly_jump(0, 0x1_0000_0000);
    assert_eq!(j.len(), HOOK_SIZE_ABSOLUTE);
    assert_eq!(j[..10], [0x48, 0xB8, 0, 0, 0, 0, 1, 0, 0, 0]);
    assert_eq!(j[10..], [0x48, 0xFF, 0xE0]);
}

#[test]
fn hook_removal_restores_memory() {
    let src: u64 = 0x20000;
    let mut memory: Vec<u8> = vec![0x90; 64];
    memory[16..16 + PROLOGUE.len()].copy_from_slice(&PROLOGUE);
    let before = memory.clone();
    let code = scan_window(&PROLOGUE);
    let mut h = KHook::new(src, 0x9000_0000_0000, false, &code, |_| Some(0x10000)).unwrap();
    let memory = RefCell::new(memory);
    let write = |a: u64, b: &[u8]| {
        let at = (a - src) as usize + 16;
        memory.borrow_mut()[at..at + b.len()].copy_from_slice(b);
        true
    };
    assert_eq!(h.enable(write), Some(()));
    assert_ne!(*memory.borrow(), before);
    assert_eq!(h.disable(write), Some(()));
    assert_eq!(*memory.borrow(), before);
    assert!(!h.is_enabled());
}
