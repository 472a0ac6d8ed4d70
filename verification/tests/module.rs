use std::cell::RefCell;
use winkernl::memory::module::{
    find_exported_routine_by_name, get_system_module_base_address, parse_process_modules, query_system_module,
    resolve_system_routine, MODULES_OFFSET, MODULE_RECORD_SIZE,
};
use winkernl::{
    filename_from_info, module_base_and_name, NTSTATUS, RTL_PROCESS_MODULE_INFORMATION, STATUS_INFO_LENGTH_MISMATCH,
    STATUS_INVALID_PARAMETER, STATUS_UNSUCCESSFUL,
};

fn record(base: u64, size: u32, path: &str, file_offset: u16) -> Vec<u8> {
    let mut r = Vec::new();
    r.extend_from_slice(&0x11u64.to_le_bytes());
    r.extend_from_slice(&0x22u64.to_le_bytes());
    r.extend_from_slice(&base.to_le_bytes());
    r.extend_from_slice(&size.to_le_bytes());
    r.extend_from_slice(&0x4000_0000u32.to_le_bytes());
    r.extend_from_slice(&1u16.to_le_bytes());
    r.extend_from_slice(&2u16.to_le_bytes());
    r.extend_from_slice(&3u16.to_le_bytes());
    r.extend_from_slice(&file_offset.to_le_bytes());
    let mut p = path.as_bytes().to_vec();
    p.resize(256, 0);
    r.extend_from_slice(&p);
    assert_eq!(r.len(), MODULE_RECORD_SIZE);
    r
}

fn listing(count: u32, records: &[Vec<u8>]) -> Vec<u8> {
    let mut b = count.to_le_bytes().to_vec();
    b.extend_from_slice(&[0; 4]);
    for r in records {
        b.extend_from_slice(r);
    }
    b
}

fn kernel_listing() -> Vec<u8> {
    listing(
        2,
        &[
            record(0xFFFF_F800_0000_0000, 0x100_0000, "\\SystemRoot\\system32\\ntoskrnl.exe", 21),
            record(0xFFFF_F800_2000_0000, 0x8_0000, "\\SystemRoot\\System32\\drivers\\CLFS.SYS", 29),
        ],
    )
}

fn info(path: &[u8], file_offset: u16) -> RTL_PROCESS_MODULE_INFORMATION {
    let mut full = [0u8; 256];
    full[..path.len()].copy_from_slice(path);
    RTL_PROCESS_MODULE_INFORMATION {
        Section: 0,
        MappedBase: 0,
        ImageBase: 0x1234_0000,
        ImageSize: 0,
        Flags: 0,
        LoadOrderIndex: 0,
        InitOrderIndex: 0,
        LoadCount: 0,
        OffsetToFileName: file_offset,
        FullPathName: full,
    }
}

fn query(name: &str, buf: Vec<u8>) -> Result<Option<RTL_PROCESS_MODULE_INFORMATION>, NTSTATUS> {
    let size = buf.len() as u32;
    query_system_module(name, || (STATUS_INFO_LENGTH_MISMATCH, size), move |n| {
        assert_eq!(n, size);
        (0, buf)
    })
}

#[test]
fn parse_records() {
    let mods = parse_process_modules(&kernel_listing());
    assert_eq!(mods.len(), 2);
    assert_eq!(mods[0].Section, 0x11);
    assert_eq!(mods[0].MappedBase, 0x22);
    assert_eq!(mods[0].ImageBase, 0xFFFF_F800_0000_0000);
    assert_eq!(mods[0].ImageSize, 0x100_0000);
    assert_eq!(mods[0].Flags, 0x4000_0000);
    assert_eq!((mods[0].LoadOrderIndex, mods[0].InitOrderIndex, mods[0].LoadCount), (1, 2, 3));
    assert_eq!(mods[0].OffsetToFileName, 21);
    assert_eq!(mods[1].ImageBase, 0xFFFF_F800_2000_0000);
    assert_eq!(filename_from_info(&mods[1]), b"CLFS.SYS");
}

#[test]
fn parse_limits_count_to_buffer() {
    let b = listing(5, &[record(1, 2, "a", 0)]);
    assert_eq!(parse_process_modules(&b).len(), 1);
    assert_eq!(parse_process_modules(&b[..MODULES_OFFSET + 100]).len(), 0);
    assert_eq!(parse_process_modules(&[1, 0, 0]).len(), 0);
    assert_eq!(parse_process_modules(&listing(0, &[record(1, 2, "a", 0)])).len(), 0);
}

#[test]
fn query_by_path_or_file_name() {
    let r = query("\\SYSTEMROOT\\System32\\NTOSKRNL.exe", kernel_listing()).unwrap().unwrap();
    assert_eq!(r.ImageBase, 0xFFFF_F800_0000_0000);
    let r = query("clfs.sys", kernel_listing()).unwrap().unwrap();
    assert_eq!(r.ImageBase, 0xFFFF_F800_2000_0000);
    assert!(query("ntfs.sys", kernel_listing()).unwrap().is_none());
    // A file name taken at the wrong offset does not match.
    assert!(query("system32\\ntoskrnl.exe", kernel_listing()).unwrap().is_none());
}

#[test]
fn query_ignores_case() {
    let a = query("NTOSKRNL.EXE", kernel_listing()).unwrap().map(|m| m.ImageBase);
    let b = query("ntoskrnl.exe", kernel_listing()).unwrap().map(|m| m.ImageBase);
    assert_eq!(a, b);
    assert!(a.is_some());
}

#[test]
fn query_errors() {
    let called = RefCell::new(false);
    let r = query_system_module("", || {
        *called.borrow_mut() = true;
        (0, 0)
    }, |_| (0, Vec::new()));
    assert_eq!(r.err(), Some(STATUS_INVALID_PARAMETER));
    assert!(!*called.borrow());
    let r = query_system_module("ntoskrnl.exe", || (STATUS_UNSUCCESSFUL, 0), |_| panic!());
    assert_eq!(r.err(), Some(STATUS_UNSUCCESSFUL));
    let r = query_system_module("ntoskrnl.exe", || (0, 8), |_| (STATUS_INFO_LENGTH_MISMATCH, Vec::new()));
    assert_eq!(r.err(), Some(STATUS_INFO_LENGTH_MISMATCH));
}

#[test]
fn module_base_address() {
    let b = kernel_listing();
    let size = b.len() as u32;
    let r = get_system_module_base_address("ntoskrnl.exe", || (STATUS_INFO_LENGTH_MISMATCH, size), move |_| (0, b));
    assert_eq!(r, Ok(Some(0xFFFF_F800_0000_0000)));
    let r = get_system_module_base_address("x.sys", || (0, 8), |_| (0, listing(0, &[])));
    assert_eq!(r, Ok(None));
    assert_eq!(get_system_module_base_address("", || (0, 0), |_| (0, Vec::new())), Err(STATUS_INVALID_PARAMETER));
}

#[test]
fn exported_routine_lookup() {
    let seen = RefCell::new(Vec::new());
    let r = find_exported_routine_by_name(0x1000, "PsGetProcessId", |b, n| {
        seen.borrow_mut().push((b, n.to_vec()));
        0x2000
    });
    assert_eq!(r, Some(0x2000));
    assert_eq!(seen.borrow()[0], (0x1000, b"PsGetProcessId\0".to_vec()));
    assert_eq!(find_exported_routine_by_name(0x1000, "X", |_, _| 0), None);
    assert_eq!(find_exported_routine_by_name(0, "X", |_, _| panic!()), None);
    assert_eq!(find_exported_routine_by_name(0x1000, "", |_, _| panic!()), None);
}

#[test]
fn resolve_routine() {
    let b = kernel_listing();
    let size = b.len() as u32;
    let r = resolve_system_routine(
        "ntoskrnl.exe",
        "PsInitialSystemProcess",
        || (STATUS_INFO_LENGTH_MISMATCH, size),
        move |_| (0, b),
        |base, name| {
            assert_eq!(base, 0xFFFF_F800_0000_0000);
            assert_eq!(name, b"PsInitialSystemProcess\0");
            0xFFFF_F800_00C0_0000
        },
    );
    assert_eq!(r, Ok(Some(0xFFFF_F800_00C0_0000)));
    let r = resolve_system_routine("ntoskrnl.exe", "", || panic!(), |_| panic!(), |_, _| panic!());
    assert_eq!(r, Err(STATUS_INVALID_PARAMETER));
    let r = resolve_system_routine("", "X", || panic!(), |_| panic!(), |_, _| panic!());
    assert_eq!(r, Err(STATUS_INVALID_PARAMETER));
    let r = resolve_system_routine("x.sys", "X", || (0, 8), |_| (0, listing(0, &[])), |_, _| panic!());
    assert_eq!(r, Ok(None));
    let r = resolve_system_routine("x.sys", "X", || (STATUS_UNSUCCESSFUL, 0), |_| panic!(), |_, _| panic!());
    assert_eq!(r, Err(STATUS_UNSUCCESSFUL));
}

#[test]
fn file_name_of_module() {
    let m = info(b"\\SystemRoot\\system32\\ntoskrnl.exe", 21);
    assert_eq!(filename_from_info(&m), b"ntoskrnl.exe");
    let m = info(b"\\a\\b.sys", 300);
    assert_eq!(filename_from_info(&m), b"\\a\\b.sys");
    let m = info(&[b'x'; 256], 250);
    assert_eq!(filename_from_info(&m), b"xxxxxx");
    let m = info(&[b'y'; 256], 256);
    assert_eq!(filename_from_info(&m).len(), 256);
    let m = info(b"\\a\\b.sys", 3);
    let (base, name) = module_base_and_name(&m);
    assert_eq!(base, 0x1234_0000);
    assert_eq!(name, b"b.sys");
}
