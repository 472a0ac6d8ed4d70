use std::collections::HashMap;
use winkernl::memory::pagewalk::{PageWalker, 
    get_address_of_level, get_pte, huge_mapping_fits, read_page_table_entry_e, virtual_to_physical, MemPhysical, PageLevel,
    PageTableEntry, WalkErr, WalkLevelErr,
};

struct FakeMemory {
    words: HashMap<u64, u64>,
    reads: usize,
}

impl MemPhysical for FakeMemory {
    type E = u32;
    fn read_physical(&mut self, phys: u64, buf: &mut [u8]) -> Result<(), u32> {
        self.reads += 1;
        match self.words.get(&phys) {
            Some(v) if buf.len() == 8 => {
                buf.copy_from_slice(&v.to_le_bytes());
                Ok(())
            }
            _ => Err(0xdead),
        }
    }
}

#[test]
fn walk_4k_page() {
    let mut m = FakeMemory { words: HashMap::new(), reads: 0 };
    m.words.insert(0x1000, 0x2000 | 1);
    m.words.insert(0x2000, 0x3000 | 1);
    m.words.insert(0x3000, 0x4000 | 1);
    m.words.insert(0x4000, 0x5000 | 1);
    let r = virtual_to_physical(0x1000, 0x123, &mut m);
    assert!(matches!(r, Ok((0x5123, PageLevel::Phys))));
    assert_eq!(get_pte(0x1000, 0x123, &mut m).ok(), Some(0x4000));
    let e = read_page_table_entry_e(0x1000, 0, &mut m).ok().unwrap();
    assert_eq!(e, PageTableEntry::new(0x2001));
    match get_address_of_level(0x1000, 0x123, PageLevel::Phys, &mut m) {
        Ok(a) => assert_eq!(a, 0x5123),
        Err(_) => panic!(),
    }
    let _ = WalkLevelErr::<u32>::HugePageBeforeLevel;
    let _ = WalkErr::<u32>::ReadErr(1);
}

fn memory(words: &[(u64, u64)]) -> FakeMemory {
    let mut m = FakeMemory { words: HashMap::new(), reads: 0 };
    for (a, v) in words {
        m.words.insert(*a, *v);
    }
    m
}

const VA_SPREAD: u64 = (1 << 39) | (2 << 30) | (3 << 21) | (4 << 12) | 0x567;

fn spread_tables() -> FakeMemory {
    memory(&[
        (0x1000 + 8, 0x2000 | 1),
        (0x2000 + 2 * 8, 0x3000 | 1),
        (0x3000 + 3 * 8, 0x4000 | 1),
        (0x4000 + 4 * 8, 0x0009_0000 | 0x63),
    ])
}

#[test]
fn walk_uses_every_index() {
    let mut m = spread_tables();
    let r = virtual_to_physical(0x1000, VA_SPREAD, &mut m);
    assert!(matches!(r, Ok((0x0009_0567, PageLevel::Phys))));
    assert_eq!(m.reads, 4);
}

#[test]
fn level_addresses_follow_the_walk() {
    let mut m = spread_tables();
    assert_eq!(get_address_of_level(0x1000, VA_SPREAD, PageLevel::Pml4, &mut m).ok(), Some(0x1008));
    assert_eq!(m.reads, 0);
    assert_eq!(get_address_of_level(0x1000, VA_SPREAD, PageLevel::Pdpt, &mut m).ok(), Some(0x2010));
    assert_eq!(get_address_of_level(0x1000, VA_SPREAD, PageLevel::Pd, &mut m).ok(), Some(0x3018));
    assert_eq!(get_address_of_level(0x1000, VA_SPREAD, PageLevel::Pt, &mut m).ok(), Some(0x4020));
    assert_eq!(get_address_of_level(0x1000, VA_SPREAD, PageLevel::Phys, &mut m).ok(), Some(0x0009_0567));
    assert_eq!(get_pte(0x1000, VA_SPREAD, &mut m).ok(), Some(0x4020));
}

#[test]
fn walk_2m_page() {
    let mut m = memory(&[(0x1000, 0x2000 | 1), (0x2000, 0x3000 | 1), (0x3000, 0x0020_0000 | 0x81)]);
    let r = virtual_to_physical(0x1000, 0x12_3456, &mut m);
    assert!(matches!(r, Ok((0x32_3456, PageLevel::Pd))));
    assert!(matches!(get_pte(0x1000, 0x12_3456, &mut m), Err(WalkLevelErr::HugePageBeforeLevel)));
    assert!(matches!(
        get_address_of_level(0x1000, 0x12_3456, PageLevel::Phys, &mut m),
        Err(WalkLevelErr::HugePageBeforeLevel)
    ));
    assert_eq!(get_address_of_level(0x1000, 0x12_3456, PageLevel::Pd, &mut m).ok(), Some(0x3000));
}

#[test]
fn walk_1g_page() {
    let mut m = memory(&[(0x1000, 0x2000 | 1), (0x2000, 0x4000_0000 | 0x81)]);
    let r = virtual_to_physical(0x1000, 0x1234_5678, &mut m);
    assert!(matches!(r, Ok((0x5234_5678, PageLevel::Pdpt))));
    assert!(matches!(
        get_address_of_level(0x1000, 0x1234_5678, PageLevel::Pd, &mut m),
        Err(WalkLevelErr::HugePageBeforeLevel)
    ));
}

#[test]
fn walk_stops_at_missing_entries() {
    let mut m = memory(&[(0x1000, 0x2000)]);
    match virtual_to_physical(0x1000, 0x123, &mut m) {
        Err(WalkErr::InvalidPml4(e)) => assert_eq!(e.entry, 0x2000),
        _ => panic!("expected an invalid PML4 entry"),
    }
    let mut m = memory(&[(0x1000, 0x2000 | 1), (0x2000, 0)]);
    assert!(matches!(virtual_to_physical(0x1000, 0x123, &mut m), Err(WalkErr::InvalidPdpt(_))));
    let mut m = memory(&[(0x1000, 0x2000 | 1), (0x2000, 0x3000 | 1), (0x3000, 0x80)]);
    assert!(matches!(virtual_to_physical(0x1000, 0x123, &mut m), Err(WalkErr::InvalidPde(_))));
    let mut m = memory(&[(0x1000, 0x2000 | 1), (0x2000, 0x3000 | 1), (0x3000, 0x4000 | 1), (0x4000, 0x5000)]);
    assert!(matches!(virtual_to_physical(0x1000, 0x123, &mut m), Err(WalkErr::InvalidPte(_))));
    assert!(matches!(
        get_address_of_level(0x1000, 0x123, PageLevel::Phys, &mut m),
        Err(WalkLevelErr::WalkErr(WalkErr::InvalidPte(_)))
    ));
}

#[test]
fn walk_reports_read_errors() {
    let mut m = memory(&[(0x1000, 0x2000 | 1)]);
    assert!(matches!(virtual_to_physical(0x1000, 0x123, &mut m), Err(WalkErr::ReadErr(0xdead))));
    assert!(matches!(
        get_address_of_level(0x1000, 0x123, PageLevel::Pd, &mut m),
        Err(WalkLevelErr::WalkErr(WalkErr::ReadErr(0xdead)))
    ));
    assert!(matches!(read_page_table_entry_e(0x7000, 3, &mut m), Err(WalkErr::ReadErr(0xdead))));
}

#[test]
fn entry_fields() {
    let e = PageTableEntry::new(0x8000_0000_0000_5063);
    assert_eq!(e.addr(), 0x5000);
    assert!(e.is_present());
    assert!(!e.is_huge());
    let h = PageTableEntry::new(0x0020_0083);
    assert!(h.is_huge());
    assert_eq!(h.addr(), 0x0020_0000);
    assert!(!PageTableEntry::new(0xfff0_0000_0000_0000).is_present());
    assert_eq!(PageTableEntry::new(0xfff0_0000_0000_0000).addr(), 0);
}

#[test]
fn entry_read_at_index() {
    let mut m = memory(&[(0x7000 + 5 * 8, 0xabc_d001)]);
    let e = read_page_table_entry_e(0x7000, 5, &mut m).ok().unwrap();
    assert_eq!(e.entry, 0xabc_d001);
    assert_eq!(e.addr(), 0xabc_d000);
}

#[test]
fn translation_agrees_with_phys_level_walk() {
    let mut m = spread_tables();
    let pa = match virtual_to_physical(0x1000, VA_SPREAD, &mut m) {
        Ok((pa, PageLevel::Phys)) => pa,
        _ => panic!(),
    };
    assert_eq!(get_address_of_level(0x1000, VA_SPREAD, PageLevel::Phys, &mut m).ok(), Some(pa));
    assert_eq!(pa & 0xfff, VA_SPREAD & 0xfff);
}

#[test]
fn page_level_order() {
    assert!(PageLevel::Pml4 < PageLevel::Pdpt);
    assert!(PageLevel::Pt < PageLevel::Phys);
}

#[test]
fn huge_mappings_within_physical_range() {
    let mut m = memory(&[(0x1000, 0x2000 | 1), (0x2000, 0x000F_FFFF_C000_0000 | 0x81)]);
    assert!(huge_mapping_fits(0x1000, 0x1234_5678, &mut m));
    let mut m = memory(&[(0x1000, 0x2000 | 1), (0x2000, 0x000F_FFFF_FFFF_F000 | 0x81)]);
    assert!(!huge_mapping_fits(0x1000, 0x1000, &mut m));
    assert!(huge_mapping_fits(0x1000, 0xFFF, &mut m));
    let mut m = memory(&[(0x1000, 0x2000 | 1), (0x2000, 0x3000 | 1), (0x3000, 0x000F_FFFF_FFFF_F000 | 0x81)]);
    assert!(!huge_mapping_fits(0x1000, 0x1000, &mut m));
    let mut m = spread_tables();
    assert!(huge_mapping_fits(0x1000, VA_SPREAD, &mut m));
    let mut m = memory(&[]);
    assert!(huge_mapping_fits(0x1000, 0, &mut m));
}

#[test]
fn backend_errors_convert_to_walk_errors() {
    assert!(matches!(WalkErr::from(7u32), WalkErr::ReadErr(7)));
    assert!(matches!(WalkLevelErr::from(7u32), WalkLevelErr::WalkErr(WalkErr::ReadErr(7))));
    let e = WalkErr::<u32>::InvalidPde(PageTableEntry::new(0x80));
    match WalkLevelErr::<u32>::from(e) {
        WalkLevelErr::WalkErr(WalkErr::InvalidPde(x)) => assert_eq!(x.entry, 0x80),
        _ => panic!(),
    }
}

struct LoggingMemory {
    words: HashMap<u64, u64>,
    log: Vec<(u64, usize)>,
}

impl MemPhysical for LoggingMemory {
    type E = ();
    fn read_physical(&mut self, phys: u64, buf: &mut [u8]) -> Result<(), ()> {
        self.log.push((phys, buf.len()));
        match self.words.get(&phys) {
            Some(v) if buf.len() == 8 => {
                buf.copy_from_slice(&v.to_le_bytes());
                Ok(())
            }
            _ => Err(()),
        }
    }
}

fn logging(words: &[(u64, u64)]) -> LoggingMemory {
    LoggingMemory { words: words.iter().copied().collect(), log: Vec::new() }
}

const VA_1234: u64 = 0x80_8060_4123;
const TABLES_1234: [(u64, u64); 4] = [(0x1008, 0x2001), (0x2010, 0x3001), (0x3018, 0x4001), (0x4020, 0x5001)];

#[test]
fn level_walk_reads_only_the_entries_above_the_level() {
    let mut m = logging(&TABLES_1234);
    assert_eq!(get_address_of_level(0x1000, VA_1234, PageLevel::Pt, &mut m).ok(), Some(0x4020));
    assert_eq!(m.log, vec![(0x1008, 8), (0x2010, 8), (0x3018, 8)]);
    let mut m = logging(&TABLES_1234);
    assert_eq!(get_address_of_level(0x1000, VA_1234, PageLevel::Pml4, &mut m).ok(), Some(0x1008));
    assert!(m.log.is_empty());
}

#[test]
fn translation_reads_each_level_in_order() {
    let mut m = logging(&TABLES_1234);
    assert!(matches!(virtual_to_physical(0x1000, VA_1234, &mut m), Ok((0x5123, PageLevel::Phys))));
    assert_eq!(m.log, vec![(0x1008, 8), (0x2010, 8), (0x3018, 8), (0x4020, 8)]);
}

#[test]
fn nothing_is_read_after_a_failing_step_or_below_a_huge_page() {
    let mut m = logging(&[(0x1008, 0x2001), (0x2010, 0x3000)]);
    assert!(matches!(virtual_to_physical(0x1000, VA_1234, &mut m), Err(WalkErr::InvalidPdpt(_))));
    assert_eq!(m.log, vec![(0x1008, 8), (0x2010, 8)]);
    let mut m = logging(&[(0x1008, 0x2001)]);
    assert!(matches!(get_address_of_level(0x1000, VA_1234, PageLevel::Phys, &mut m), Err(WalkLevelErr::WalkErr(WalkErr::ReadErr(())))));
    assert_eq!(m.log, vec![(0x1008, 8), (0x2010, 8)]);
    let mut m = logging(&[(0x1008, 0x2001), (0x2010, 0x4000_0081)]);
    assert!(matches!(get_address_of_level(0x1000, VA_1234, PageLevel::Pt, &mut m), Err(WalkLevelErr::HugePageBeforeLevel)));
    assert_eq!(m.log, vec![(0x1008, 8), (0x2010, 8)]);
    let mut m = logging(&[(0x1008, 0x2001), (0x2010, 0x4000_0081)]);
    assert_eq!(get_address_of_level(0x1000, VA_1234, PageLevel::Pdpt, &mut m).ok(), Some(0x2010));
}

#[test]
fn walker_methods_on_the_reader() {
    let mut m = logging(&TABLES_1234);
    assert!(matches!(m.virtual_to_physical(0x1000, VA_1234), Ok((0x5123, PageLevel::Phys))));
    assert_eq!(m.get_address_of_level(0x1000, VA_1234, PageLevel::Pd).ok(), Some(0x3018));
    assert_eq!(m.read_page_table_entry_e(0x1000, 1).ok().map(|e| e.entry), Some(0x2001));
}

#[test]
fn two_readers_of_the_same_memory_agree() {
    let words = [(0x1000 + 8, 0x2000 | 1), (0x2000 + 2 * 8, 0x3000 | 1), (0x3000 + 3 * 8, 0x4000 | 1), (0x4000 + 4 * 8, 0x0009_0000 | 0x63)];
    let mut first = memory(&words);
    let mut second = memory(&words);
    let by_level = get_address_of_level(0x1000, VA_SPREAD, PageLevel::Phys, &mut first).ok();
    let translated = virtual_to_physical(0x1000, VA_SPREAD, &mut second);
    assert_eq!(by_level, Some(0x0009_0567));
    assert!(matches!(translated, Ok((0x0009_0567, PageLevel::Phys))));
    assert_eq!(first.reads, second.reads);
    let huge = [(0x1000, 0x2000 | 1), (0x2000, 0x3000 | 1), (0x3000, 0x0020_0000 | 0x81)];
    let mut first = memory(&huge);
    let mut second = memory(&huge);
    assert!(matches!(virtual_to_physical(0x1000, 0x12_3456, &mut second), Ok((_, PageLevel::Pd))));
    assert!(matches!(
        get_address_of_level(0x1000, 0x12_3456, PageLevel::Phys, &mut first),
        Err(WalkLevelErr::HugePageBeforeLevel)
    ));
}
