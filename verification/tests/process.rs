use std::cell::RefCell;
use std::collections::HashMap;
use winkernl::disasm::{DecodedInstruction, MNEMONIC_MOV, MNEMONIC_RET, OP_KIND_MEMORY, OP_KIND_REGISTER, REGISTER_NONE, REGISTER_RAX, REGISTER_RCX};
use winkernl::process::eprocess::{
    classify_instruction, find_offset_from_routine, find_structure_offset, get_active_process_links_offset,
    get_process_id, get_process_image_base, get_process_peb, initialize_cached_offsets, search_cached_offset,
    search_peb_offset, search_process_id_offset, search_process_image_base_offset, EprocessOffsets, PAGE_SIZE,
};
use winkernl::process::{
    get_initial_system_process, process_search_start, process_walk_step, ProcessWalkStep, SearchError,
    NTOSKRNL_PATH, PS_INITIAL_SYSTEM_PROCESS,
};
use winkernl::{NTSTATUS, STATUS_UNSUCCESSFUL};

/// `mov rax, [rcx+550h]; ret`
const PEB_ACCESSOR: [u8; 8] = [0x48, 0x8B, 0x81, 0x50, 0x05, 0x00, 0x00, 0xC3];

fn accessor_insn(disp: u64, segment: u8) -> DecodedInstruction {
    DecodedInstruction {
        mnemonic: MNEMONIC_MOV,
        len: 7,
        op0_kind: OP_KIND_REGISTER,
        op0_register: REGISTER_RAX,
        op1_kind: OP_KIND_MEMORY,
        memory_base: REGISTER_RCX,
        memory_index: REGISTER_NONE,
        memory_segment: segment,
        memory_displacement64: disp,
        is_ip_rel_memory_operand: false,
    }
}

#[test]
fn active_process_links_offsets() {
    assert_eq!(get_active_process_links_offset(26100), 0x1D8);
    assert_eq!(get_active_process_links_offset(26200), 0x1D8);
    assert_eq!(get_active_process_links_offset(22631), 0x448);
    assert_eq!(get_active_process_links_offset(0), 0x448);
}

#[test]
fn classify_accessor_and_ret() {
    assert_eq!(classify_instruction(&accessor_insn(0x550, REGISTER_NONE)), Some(Some(0x550)));
    let mut ret = accessor_insn(0, REGISTER_NONE);
    ret.mnemonic = MNEMONIC_RET;
    assert_eq!(classify_instruction(&ret), Some(None));
    let mut other_base = accessor_insn(0x550, REGISTER_NONE);
    other_base.memory_base = REGISTER_RAX;
    assert_eq!(classify_instruction(&other_base), None);
    // The decoder reports the effective segment (DS) of `[rcx+disp]`.
    assert_eq!(classify_instruction(&accessor_insn(0x550, 1)), None);
}

#[test]
fn structure_offset_scan() {
    // The decoder names DS as the segment of `[rcx+550h]`, so the accessor is
    // not taken and the scan ends at `ret`.
    assert_eq!(find_structure_offset(0x1000, &PEB_ACCESSOR), None);
    assert_eq!(find_structure_offset(0x1000, &[0xC3, 0x48, 0x8B, 0x81, 0x50, 0x05, 0, 0]), None);
    assert_eq!(find_structure_offset(0x1000, &[0x90; 16]), None);
    assert_eq!(find_structure_offset(0x1000, &[]), None);
}

fn resolver(found: Result<Option<u64>, NTSTATUS>) -> impl Fn(&str, &str) -> Result<Option<u64>, NTSTATUS> {
    move |_m: &str, _r: &str| found
}

#[test]
fn offset_from_routine() {
    let seen = RefCell::new(Vec::new());
    let r = find_offset_from_routine(
        NTOSKRNL_PATH,
        "PsGetProcessPeb",
        |m: &str, r: &str| {
            seen.borrow_mut().push((m.to_string(), r.to_string()));
            Ok(Some(0x4000))
        },
        |a| {
            assert_eq!(a, 0x4000);
            PEB_ACCESSOR.to_vec()
        },
    );
    assert_eq!(r, Ok(None));
    assert_eq!(seen.borrow()[0], (NTOSKRNL_PATH.to_string(), "PsGetProcessPeb".to_string()));
    let r = find_offset_from_routine(NTOSKRNL_PATH, "X", resolver(Ok(None)), |_| panic!());
    assert_eq!(r, Err(SearchError::UnknownFunction));
    let r = find_offset_from_routine(NTOSKRNL_PATH, "X", resolver(Err(STATUS_UNSUCCESSFUL)), |_| panic!());
    assert_eq!(r, Err(SearchError::UnknownFunction));
    assert_eq!(PAGE_SIZE, 4096);
}

#[test]
fn cached_offset_is_reused() {
    let mut cache = 0x550u64;
    let r = search_cached_offset(&mut cache, NTOSKRNL_PATH, "PsGetProcessPeb", &|_: &str, _: &str| -> Result<Option<u64>, NTSTATUS> { panic!() }, &|_: u64| -> Vec<u8> { panic!() });
    assert_eq!(r, Ok(Some(0x550)));
    assert_eq!(cache, 0x550);
    let mut cache = 0u64;
    let r = search_cached_offset(&mut cache, NTOSKRNL_PATH, "PsGetProcessPeb", &resolver(Ok(Some(0x4000))), &|_: u64| PEB_ACCESSOR.to_vec());
    assert_eq!(r, Ok(None));
    assert_eq!(cache, 0);
}

#[test]
fn field_searches_touch_only_their_field() {
    let mut offsets = EprocessOffsets::new();
    assert_eq!((offsets.peb, offsets.process_id, offsets.image_base), (0, 0, 0));
    offsets.process_id = 0x440;
    let none = resolver(Ok(None));
    let code = |_: u64| -> Vec<u8> { Vec::new() };
    assert_eq!(search_process_id_offset(&mut offsets, &none, &code), Ok(Some(0x440)));
    assert_eq!(search_peb_offset(&mut offsets, &none, &code), Err(SearchError::UnknownFunction));
    assert_eq!(search_process_image_base_offset(&mut offsets, &none, &code), Err(SearchError::UnknownFunction));
    assert_eq!((offsets.peb, offsets.process_id, offsets.image_base), (0, 0x440, 0));
}

#[test]
fn eprocess_field_reads() {
    let mut offsets = EprocessOffsets { peb: 0x550, process_id: 0x440, image_base: 0x520 };
    let mem: HashMap<u64, u64> = [(0x9000 + 0x550, 0xAAAA), (0x9000 + 0x440, 4), (0x9000 + 0x520, 0x7FF6_0000_0000)]
        .into_iter()
        .collect();
    let read = |a: u64| *mem.get(&a).unwrap();
    let none = resolver(Ok(None));
    let code = |_: u64| -> Vec<u8> { Vec::new() };
    assert_eq!(get_process_peb(0x9000, &mut offsets, &none, &code, &read), Ok(Some(0xAAAA)));
    assert_eq!(get_process_id(0x9000, &mut offsets, &none, &code, &read), Ok(Some(4)));
    assert_eq!(get_process_image_base(0x9000, &mut offsets, &none, &code, &read), Ok(Some(0x7FF6_0000_0000)));
    let mut fresh = EprocessOffsets::new();
    assert_eq!(get_process_peb(0x9000, &mut fresh, &none, &code, &read), Err(SearchError::UnknownFunction));
    let found = resolver(Ok(Some(0x4000)));
    let accessor = |_: u64| PEB_ACCESSOR.to_vec();
    assert_eq!(get_process_id(0x9000, &mut fresh, &found, &accessor, &read), Ok(None));
}

#[test]
fn initialize_offsets_runs_every_search() {
    let mut known = EprocessOffsets { peb: 1, process_id: 2, image_base: 3 };
    let none = resolver(Ok(None));
    let code = |_: u64| -> Vec<u8> { Vec::new() };
    assert_eq!(initialize_cached_offsets(&mut known, &none, &code), Ok(true));
    // The image base is unknown and its search fails; the other two still run.
    let asked = RefCell::new(Vec::new());
    let logging = |_m: &str, r: &str| -> Result<Option<u64>, NTSTATUS> {
        asked.borrow_mut().push(r.to_string());
        Ok(None)
    };
    let mut partial = EprocessOffsets { peb: 0, process_id: 2, image_base: 0 };
    assert_eq!(initialize_cached_offsets(&mut partial, &logging, &code), Err(SearchError::UnknownFunction));
    assert_eq!(*asked.borrow(), vec!["PsGetProcessSectionBaseAddress", "PsGetProcessPeb"]);
    let mut empty = EprocessOffsets::new();
    let found = resolver(Ok(Some(0x4000)));
    let accessor = |_: u64| PEB_ACCESSOR.to_vec();
    assert_eq!(initialize_cached_offsets(&mut empty, &found, &accessor), Ok(false));
    let mut mixed = EprocessOffsets { peb: 0, process_id: 2, image_base: 3 };
    assert_eq!(initialize_cached_offsets(&mut mixed, &found, &accessor), Ok(false));
}

#[test]
fn initial_system_process_is_cached() {
    let mut cache = 0u64;
    let r = get_initial_system_process(
        &mut cache,
        |m: &str, e: &str| {
            assert_eq!(m, NTOSKRNL_PATH);
            assert_eq!(e, PS_INITIAL_SYSTEM_PROCESS);
            Ok(Some(0x5000))
        },
        |a| {
            assert_eq!(a, 0x5000);
            0xFFFF_A000_0000_1000
        },
    );
    assert_eq!(r, Ok(0xFFFF_A000_0000_1000));
    assert_eq!(cache, 0xFFFF_A000_0000_1000);
    let r = get_initial_system_process(&mut cache, |_: &str, _: &str| -> Result<Option<u64>, NTSTATUS> { panic!() }, |_| panic!());
    assert_eq!(r, Ok(0xFFFF_A000_0000_1000));
}

#[test]
fn initial_system_process_errors() {
    let mut cache = 0u64;
    assert_eq!(get_initial_system_process(&mut cache, |_: &str, _: &str| Err(STATUS_UNSUCCESSFUL), |_| 0), Err(SearchError::UnknownModule));
    assert_eq!(get_initial_system_process(&mut cache, |_: &str, _: &str| Ok(None), |_| 0), Err(SearchError::UnknownFunction));
    assert_eq!(cache, 0);
}

#[test]
fn search_start_takes_first_error() {
    assert_eq!(process_search_start(Ok(0x100), Ok(Some(0x440))), Ok((0x100, 0x440)));
    assert_eq!(process_search_start(Ok(0x100), Ok(None)), Err(SearchError::UnknownOffset));
    assert_eq!(process_search_start(Err(SearchError::UnknownModule), Ok(None)), Err(SearchError::UnknownModule));
    assert_eq!(process_search_start(Ok(0x100), Err(SearchError::UnknownFunction)), Err(SearchError::UnknownFunction));
}

/// Three processes in a circular list: 0x1000 (pid 4), 0x2000 (pid 100),
/// 0x3000 (pid 200); ActiveProcessLinks at +0x448, pid at +0x440.
fn process_list() -> HashMap<u64, u64> {
    let mut m = HashMap::new();
    for (p, pid, next) in [(0x1000u64, 4u64, 0x2000u64), (0x2000, 100, 0x3000), (0x3000, 200, 0x1000)] {
        m.insert(p + 0x440, pid);
        m.insert(p + 0x448, next + 0x448);
    }
    m
}

fn walk(pid: u32, mem: &HashMap<u64, u64>) -> Option<u64> {
    let read = |a: u64| *mem.get(&a).unwrap_or(&0);
    let mut process = 0x1000;
    loop {
        match process_walk_step(process, 0x1000, pid, 0x440, 0x448, &read) {
            ProcessWalkStep::Found(p) => return Some(p),
            ProcessWalkStep::NotFound => return None,
            ProcessWalkStep::Next(p) => process = p,
        }
    }
}

#[test]
fn process_walk_finds_by_id() {
    let mem = process_list();
    assert_eq!(walk(4, &mem), Some(0x1000));
    assert_eq!(walk(100, &mem), Some(0x2000));
    assert_eq!(walk(200, &mem), Some(0x3000));
    assert_eq!(walk(7, &mem), None);
}

#[test]
fn process_walk_steps() {
    let mem = process_list();
    let read = |a: u64| *mem.get(&a).unwrap_or(&0);
    assert_eq!(process_walk_step(0x2000, 0x1000, 200, 0x440, 0x448, &read), ProcessWalkStep::Next(0x3000));
    assert_eq!(process_walk_step(0x3000, 0x1000, 1, 0x440, 0x448, &read), ProcessWalkStep::NotFound);
    let mut broken = mem.clone();
    broken.insert(0x2000 + 0x448, 0);
    let read = |a: u64| *broken.get(&a).unwrap_or(&0);
    assert_eq!(process_walk_step(0x2000, 0x1000, 1, 0x440, 0x448, &read), ProcessWalkStep::NotFound);
}

#[test]
fn cached_peb_offset_needs_no_kernel() {
    let mut offsets = EprocessOffsets { peb: 0x550, process_id: 0, image_base: 0 };
    let never_resolve = |_: &str, _: &str| -> Result<Option<u64>, NTSTATUS> { panic!("no resolution expected") };
    let never_read = |_: u64| -> Vec<u8> { panic!("no code read expected") };
    assert_eq!(search_peb_offset(&mut offsets, &never_resolve, &never_read), Ok(Some(0x550)));
    assert_eq!(search_peb_offset(&mut offsets, &never_resolve, &never_read), Ok(Some(0x550)));
    assert_eq!((offsets.peb, offsets.process_id, offsets.image_base), (0x550, 0, 0));
    let read = |a: u64| if a == 0x9000 + 0x550 { 0xBEEF } else { 0 };
    assert_eq!(get_process_peb(0x9000, &mut offsets, &never_resolve, &never_read, &read), Ok(Some(0xBEEF)));
}

#[test]
fn process_walk_not_found_visits_no_match() {
    let mem = process_list();
    let read = |a: u64| *mem.get(&a).unwrap_or(&0);
    let mut visited = Vec::new();
    let mut process = 0x1000;
    loop {
        visited.push(read(process + 0x440));
        match process_walk_step(process, 0x1000, 7, 0x440, 0x448, &read) {
            ProcessWalkStep::Found(_) => panic!("no process has the identifier"),
            ProcessWalkStep::NotFound => break,
            ProcessWalkStep::Next(p) => process = p,
        }
    }
    assert_eq!(visited, vec![4, 100, 200]);
    assert!(visited.iter().all(|&p| p != 7));
}
