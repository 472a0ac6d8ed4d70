//! Page table walking utilities.
//!
//! Architecture-level helpers that walk x86-64 page tables read from a
//! physical memory source: translating virtual addresses, locating the
//! entry that maps an address at any paging level, and reading single
//! entries. Standard 4 KiB pages as well as 2 MiB and 1 GiB huge pages are
//! handled.
//!
//! Physical memory is reached only through [`MemPhysical`]; the walk itself
//! is specified over what that reader returns for each entry it reads.
use vstd::prelude::*;
use vstd::bytes::spec_u64_from_le_bytes;

verus! {

/// Physical addresses are at most 52 bits wide.
pub const PHYS_ADDR_LIMIT: u64 = 0x10_0000_0000_0000;

/// Bits of a page table entry that hold the physical address it points to.
pub const ENTRY_ADDRESS_MASK: u64 = 0x000f_ffff_ffff_f000;

/// The `PRESENT` flag of a page table entry.
pub const FLAG_PRESENT: u64 = 0x1;

/// The `HUGE_PAGE` (page size) flag of a page table entry.
pub const FLAG_HUGE_PAGE: u64 = 0x80;

/// Offset bits of an address inside a 4 KiB page.
pub const PAGE_OFFSET_MASK: u64 = 0xfff;

/// Offset bits of an address inside a 2 MiB page.
pub const HUGE_2M_OFFSET_MASK: u64 = 0x1f_ffff;

/// Offset bits of an address inside a 1 GiB page.
pub const HUGE_1G_OFFSET_MASK: u64 = 0x3fff_ffff;

/// Size in bytes of one page table entry.
pub const ENTRY_SIZE: u64 = 8;

/// A raw 64-bit page table entry.
#[derive(Clone, Copy, Debug, PartialEq, Eq, Structural)]
pub struct PageTableEntry {
    pub entry: u64,
}

impl PageTableEntry {
    /// The physical address the entry points to.
    pub open spec fn spec_addr(self) -> u64 {
        self.entry & ENTRY_ADDRESS_MASK
    }

    /// Whether the `PRESENT` flag is set.
    pub open spec fn spec_present(self) -> bool {
        self.entry & FLAG_PRESENT == FLAG_PRESENT
    }

    /// Whether the `HUGE_PAGE` flag is set.
    pub open spec fn spec_huge(self) -> bool {
        self.entry & FLAG_HUGE_PAGE == FLAG_HUGE_PAGE
    }

    pub fn new(entry: u64) -> (r: Self)
        ensures
            r.entry == entry,
    {
        PageTableEntry { entry }
    }

    /// Returns the physical address mapped by this entry, which may be zero.
    pub fn addr(&self) -> (r: u64)
        ensures
            r == self.spec_addr(),
            r < PHYS_ADDR_LIMIT,
            r % 4096 == 0,
    {
        let e = self.entry;
        assert((e & 0x000f_ffff_ffff_f000u64) < 0x10_0000_0000_0000u64) by (bit_vector);
        assert((e & 0x000f_ffff_ffff_f000u64) % 4096 == 0) by (bit_vector);
        self.entry & ENTRY_ADDRESS_MASK
    }

    /// Whether the entry is present.
    pub fn is_present(&self) -> (r: bool)
        ensures
            r == self.spec_present(),
    {
        flags_contain(self.entry, FLAG_PRESENT)
    }

    /// Whether the entry maps a huge page.
    pub fn is_huge(&self) -> (r: bool)
        ensures
            r == self.spec_huge(),
    {
        flags_contain(self.entry, FLAG_HUGE_PAGE)
    }
}

/// `x86_64::structures::paging::PageTableFlags::contains` on the flags of a
/// raw entry: true exactly when every bit of `flag` is set in `entry`.
#[verifier::external_body]
fn flags_contain(entry: u64, flag: u64) -> (r: bool)
    ensures
        r == (entry & flag == flag),
{
    x86_64::structures::paging::PageTableFlags::from_bits_retain(entry).contains(
        x86_64::structures::paging::PageTableFlags::from_bits_retain(flag),
    )
}

/// `x86_64::VirtAddr::p4_index`: bits 39..48 of the address.
#[verifier::external_body]
fn p4_index(va: u64) -> (r: u64)
    ensures
        r == (va >> 39u64) & 0x1ffu64,
{
    u64::from(x86_64::VirtAddr::new_truncate(va).p4_index())
}

/// `x86_64::VirtAddr::p3_index`: bits 30..39 of the address.
#[verifier::external_body]
fn p3_index(va: u64) -> (r: u64)
    ensures
        r == (va >> 30u64) & 0x1ffu64,
{
    u64::from(x86_64::VirtAddr::new_truncate(va).p3_index())
}

/// `x86_64::VirtAddr::p2_index`: bits 21..30 of the address.
#[verifier::external_body]
fn p2_index(va: u64) -> (r: u64)
    ensures
        r == (va >> 21u64) & 0x1ffu64,
{
    u64::from(x86_64::VirtAddr::new_truncate(va).p2_index())
}

/// `x86_64::VirtAddr::p1_index`: bits 12..21 of the address.
#[verifier::external_body]
fn p1_index(va: u64) -> (r: u64)
    ensures
        r == (va >> 12u64) & 0x1ffu64,
{
    u64::from(x86_64::VirtAddr::new_truncate(va).p1_index())
}

/// `x86_64::PhysAddr::new`: accepts an address with no bit set in 52..64
/// (it panics otherwise) and keeps it unchanged.
#[verifier::external_body]
fn phys_addr_new(addr: u64) -> (r: u64)
    requires
        addr < PHYS_ADDR_LIMIT,
    ensures
        r == addr,
{
    x86_64::PhysAddr::new(addr).as_u64()
}

/// `<x86_64::PhysAddr as Add<u64>>::add`: the sum of a physical address and an
/// offset; it panics on overflow or when the sum sets a bit in 52..64.
#[verifier::external_body]
fn phys_addr_add(addr: u64, offset: u64) -> (r: u64)
    requires
        addr < PHYS_ADDR_LIMIT,
        addr + offset < PHYS_ADDR_LIMIT,
    ensures
        r == addr + offset,
{
    (x86_64::PhysAddr::new_truncate(addr) + offset).as_u64()
}

/// Identifies one level of the x86-64 paging hierarchy.
#[derive(Copy, Clone, PartialEq, Eq, PartialOrd, Ord, Hash, Debug, Structural)]
pub enum PageLevel {
    Pml4,
    Pdpt,
    Pd,
    Pt,
    Phys,
}

/// Errors that may occur while translating a virtual address: an entry on
/// the path is not present, or the physical memory backend failed.
#[derive(Debug)]
pub enum WalkErr<E> {
    InvalidPml4(PageTableEntry),
    InvalidPdpt(PageTableEntry),
    InvalidPde(PageTableEntry),
    InvalidPte(PageTableEntry),
    ReadErr(E),
}

/// Errors returned while retrieving the address of a paging structure.
/// Besides the walk errors, reports when a huge page ends the walk before the
/// requested level.
#[derive(Debug)]
pub enum WalkLevelErr<E> {
    WalkErr(WalkErr<E>),
    HugePageBeforeLevel,
}

impl<E> From<E> for WalkErr<E> {
    /// A backend error is a read error of the walk.
    fn from(e: E) -> (r: Self) {
        WalkErr::ReadErr(e)
    }
}

impl<E> vstd::std_specs::convert::FromSpecImpl<E> for WalkErr<E> {
    open spec fn obeys_from_spec() -> bool {
        true
    }

    open spec fn from_spec(e: E) -> Self {
        WalkErr::ReadErr(e)
    }
}

impl<E> From<E> for WalkLevelErr<E> {
    /// A backend error is a read error of the walk.
    fn from(e: E) -> (r: Self) {
        WalkLevelErr::WalkErr(WalkErr::ReadErr(e))
    }
}

impl<E> vstd::std_specs::convert::FromSpecImpl<E> for WalkLevelErr<E> {
    open spec fn obeys_from_spec() -> bool {
        true
    }

    open spec fn from_spec(e: E) -> Self {
        WalkLevelErr::WalkErr(WalkErr::ReadErr(e))
    }
}

impl<E> From<WalkErr<E>> for WalkLevelErr<E> {
    /// A walk error, as met while walking toward a level.
    fn from(e: WalkErr<E>) -> (r: Self) {
        WalkLevelErr::WalkErr(e)
    }
}

impl<E> vstd::std_specs::convert::FromSpecImpl<WalkErr<E>> for WalkLevelErr<E> {
    open spec fn obeys_from_spec() -> bool {
        true
    }

    open spec fn from_spec(e: WalkErr<E>) -> Self {
        WalkLevelErr::WalkErr(e)
    }
}

/// Forgets the backend's error value, keeping which error it is.
pub open spec fn erase_walk_err<E>(e: WalkErr<E>) -> WalkErr<()> {
    match e {
        WalkErr::InvalidPml4(x) => WalkErr::InvalidPml4(x),
        WalkErr::InvalidPdpt(x) => WalkErr::InvalidPdpt(x),
        WalkErr::InvalidPde(x) => WalkErr::InvalidPde(x),
        WalkErr::InvalidPte(x) => WalkErr::InvalidPte(x),
        WalkErr::ReadErr(_) => WalkErr::ReadErr(()),
    }
}

pub open spec fn erase_level_err<E>(e: WalkLevelErr<E>) -> WalkLevelErr<()> {
    match e {
        WalkLevelErr::WalkErr(w) => WalkLevelErr::WalkErr(erase_walk_err(w)),
        WalkLevelErr::HugePageBeforeLevel => WalkLevelErr::HugePageBeforeLevel,
    }
}

pub open spec fn erase_result<T, E>(r: Result<T, WalkErr<E>>) -> Result<T, WalkErr<()>> {
    match r {
        Ok(v) => Ok(v),
        Err(e) => Err(erase_walk_err(e)),
    }
}

pub open spec fn erase_level_result<T, E>(r: Result<T, WalkLevelErr<E>>) -> Result<T, WalkLevelErr<()>> {
    match r {
        Ok(v) => Ok(v),
        Err(e) => Err(erase_level_err(e)),
    }
}

/// Abstraction over a physical memory reader.
///
/// Implementors provide [`MemPhysical::read_physical`]; the page walking
/// routines are provided on top of it.
///
/// A reader that follows the model (`obeys_phys_spec`) sees the physical
/// memory `phys_read`: a read of `len` bytes at `phys` gives those bytes, or
/// fails where `phys_read` is `None`, and leaves the memory as it was. Every
/// read it performs is appended to `reads` (address and length). A reader
/// that does not define these is not taken to follow the model, and nothing
/// is claimed of what it reads.
pub trait MemPhysical: Sized {
    type E;

    /// Whether this reader follows the model of `phys_read` and `reads`.
    closed spec fn obeys_phys_spec(&self) -> bool {
        false
    }

    /// The bytes a read of `len` bytes at `phys` gives, `None` where it fails.
    closed spec fn phys_read(&self, phys: u64, len: nat) -> Option<Seq<u8>> {
        None
    }

    /// The reads performed so far, in order: address and length.
    closed spec fn reads(&self) -> Seq<(u64, nat)> {
        Seq::empty()
    }

    /// Reads raw bytes from physical memory into `buf`.
    fn read_physical(&mut self, phys: u64, buf: &mut [u8]) -> (r: Result<(), Self::E>)
        ensures
            final(buf)@.len() == old(buf)@.len(),
            final(self).obeys_phys_spec() == old(self).obeys_phys_spec(),
            old(self).obeys_phys_spec() ==> {
                &&& forall|a: u64, n: nat| #[trigger] final(self).phys_read(a, n) == old(self).phys_read(a, n)
                &&& final(self).reads() == old(self).reads().push((phys, old(buf)@.len() as nat))
                &&& r is Ok <==> old(self).phys_read(phys, old(buf)@.len() as nat) is Some
                &&& r is Ok ==> final(buf)@ == old(self).phys_read(phys, old(buf)@.len() as nat)->0
            },
    ;
}

/// Two readers see the same physical memory.
pub open spec fn same_memory<M: MemPhysical>(a: M, b: M) -> bool {
    forall|p: u64, n: nat| #[trigger] a.phys_read(p, n) == b.phys_read(p, n)
}

/// One read of a page-table entry at `addr`.
pub open spec fn entry_read(addr: u64) -> Seq<(u64, nat)> {
    seq![(addr, 8nat)]
}

/// The entry stored at physical address `addr`, as the reader sees it.
pub open spec fn entry_at<M: MemPhysical>(m: M, addr: u64) -> Option<PageTableEntry> {
    match m.phys_read(addr, 8) {
        Some(bytes) => Some(PageTableEntry { entry: spec_u64_from_le_bytes(bytes) }),
        None => None,
    }
}

/// Reading the entry at `addr`: the entry, or a read error.
pub open spec fn spec_read_entry<M: MemPhysical>(m: M, addr: u64) -> Result<PageTableEntry, WalkErr<()>> {
    match entry_at(m, addr) {
        Some(e) => Ok(e),
        None => Err(WalkErr::ReadErr(())),
    }
}

pub open spec fn pml4_index(va: u64) -> u64 {
    (va >> 39u64) & 0x1ffu64
}

pub open spec fn pdpt_index(va: u64) -> u64 {
    (va >> 30u64) & 0x1ffu64
}

pub open spec fn pd_index(va: u64) -> u64 {
    (va >> 21u64) & 0x1ffu64
}

pub open spec fn pt_index(va: u64) -> u64 {
    (va >> 12u64) & 0x1ffu64
}

/// Address of entry `idx` of the table at `table`.
pub open spec fn entry_address(table: u64, idx: u64) -> u64 {
    (table + idx * ENTRY_SIZE) as u64
}

/// Address of the PML4 entry for `va`.
pub open spec fn pml4e_address(pml4: u64, va: u64) -> u64 {
    entry_address(pml4, pml4_index(va))
}

/// Address of the PDPT entry for `va`, under the PML4 entry `e4`.
pub open spec fn pdpte_address(e4: PageTableEntry, va: u64) -> u64 {
    entry_address(e4.spec_addr(), pdpt_index(va))
}

/// Address of the PD entry for `va`, under the PDPT entry `e3`.
pub open spec fn pde_address(e3: PageTableEntry, va: u64) -> u64 {
    entry_address(e3.spec_addr(), pd_index(va))
}

/// Address of the PT entry for `va`, under the PD entry `e2`.
pub open spec fn pte_address(e2: PageTableEntry, va: u64) -> u64 {
    entry_address(e2.spec_addr(), pt_index(va))
}

/// `base + offset` as a 64-bit address.
pub open spec fn offset_address(base: u64, offset: u64) -> u64 {
    (base + offset) as u64
}

pub open spec fn level_read_err() -> WalkLevelErr<()> {
    WalkLevelErr::WalkErr(WalkErr::ReadErr(()))
}

/// The outcome of walking toward `level` for `va`, from the PML4 at `pml4`.
pub open spec fn spec_address_of_level<M: MemPhysical>(m: M, pml4: u64, va: u64, level: PageLevel) -> Result<u64, WalkLevelErr<()>> {
    let a4 = pml4e_address(pml4, va);
    if level == PageLevel::Pml4 {
        Ok(a4)
    } else {
        match entry_at(m, a4) {
            None => Err(level_read_err()),
            Some(e4) => if !e4.spec_present() {
                Err(WalkLevelErr::WalkErr(WalkErr::InvalidPml4(e4)))
            } else {
                let a3 = pdpte_address(e4, va);
                if level == PageLevel::Pdpt {
                    Ok(a3)
                } else {
                    match entry_at(m, a3) {
                        None => Err(level_read_err()),
                        Some(e3) => if !e3.spec_present() {
                            Err(WalkLevelErr::WalkErr(WalkErr::InvalidPdpt(e3)))
                        } else if e3.spec_huge() {
                            Err(WalkLevelErr::HugePageBeforeLevel)
                        } else {
                            let a2 = pde_address(e3, va);
                            if level == PageLevel::Pd {
                                Ok(a2)
                            } else {
                                match entry_at(m, a2) {
                                    None => Err(level_read_err()),
                                    Some(e2) => if !e2.spec_present() {
                                        Err(WalkLevelErr::WalkErr(WalkErr::InvalidPde(e2)))
                                    } else if e2.spec_huge() {
                                        Err(WalkLevelErr::HugePageBeforeLevel)
                                    } else {
                                        let a1 = pte_address(e2, va);
                                        if level == PageLevel::Pt {
                                            Ok(a1)
                                        } else {
                                            match entry_at(m, a1) {
                                                None => Err(level_read_err()),
                                                Some(e1) => if !e1.spec_present() {
                                                    Err(WalkLevelErr::WalkErr(WalkErr::InvalidPte(e1)))
                                                } else {
                                                    Ok(offset_address(e1.spec_addr(), va & PAGE_OFFSET_MASK))
                                                },
                                            }
                                        }
                                    },
                                }
                            }
                        },
                    }
                }
            },
        }
    }
}

/// The entries read, in order, by the walk toward `level` for `va` from the
/// PML4 at `pml4`: one per level down to `level`, none after an entry that
/// cannot be read, is not present, or maps a huge page.
pub open spec fn level_reads<M: MemPhysical>(m: M, pml4: u64, va: u64, level: PageLevel) -> Seq<(u64, nat)> {
    let a4 = pml4e_address(pml4, va);
    if level == PageLevel::Pml4 {
        Seq::empty()
    } else {
        entry_read(a4) + match entry_at(m, a4) {
            Some(e4) => if !e4.spec_present() {
                Seq::empty()
            } else {
                let a3 = pdpte_address(e4, va);
                if level == PageLevel::Pdpt {
                    Seq::empty()
                } else {
                    entry_read(a3) + match entry_at(m, a3) {
                        Some(e3) => if !e3.spec_present() || e3.spec_huge() {
                            Seq::empty()
                        } else {
                            let a2 = pde_address(e3, va);
                            if level == PageLevel::Pd {
                                Seq::empty()
                            } else {
                                entry_read(a2) + match entry_at(m, a2) {
                                    Some(e2) => if !e2.spec_present() || e2.spec_huge() {
                                        Seq::empty()
                                    } else if level == PageLevel::Pt {
                                        Seq::empty()
                                    } else {
                                        entry_read(pte_address(e2, va))
                                    },
                                    None => Seq::empty(),
                                }
                            }
                        },
                        None => Seq::empty(),
                    }
                }
            },
            None => Seq::empty(),
        }
    }
}

/// The outcome of translating `va` from the PML4 at `pml4`.
pub open spec fn spec_virtual_to_physical<M: MemPhysical>(m: M, pml4: u64, va: u64) -> Result<(u64, PageLevel), WalkErr<()>> {
    match entry_at(m, pml4e_address(pml4, va)) {
        None => Err(WalkErr::ReadErr(())),
        Some(e4) => if !e4.spec_present() {
            Err(WalkErr::InvalidPml4(e4))
        } else {
            match entry_at(m, pdpte_address(e4, va)) {
                None => Err(WalkErr::ReadErr(())),
                Some(e3) => if !e3.spec_present() {
                    Err(WalkErr::InvalidPdpt(e3))
                } else if e3.spec_huge() {
                    Ok((offset_address(e3.spec_addr(), va & HUGE_1G_OFFSET_MASK), PageLevel::Pdpt))
                } else {
                    match entry_at(m, pde_address(e3, va)) {
                        None => Err(WalkErr::ReadErr(())),
                        Some(e2) => if !e2.spec_present() {
                            Err(WalkErr::InvalidPde(e2))
                        } else if e2.spec_huge() {
                            Ok((offset_address(e2.spec_addr(), va & HUGE_2M_OFFSET_MASK), PageLevel::Pd))
                        } else {
                            match entry_at(m, pte_address(e2, va)) {
                                None => Err(WalkErr::ReadErr(())),
                                Some(e1) => if !e1.spec_present() {
                                    Err(WalkErr::InvalidPte(e1))
                                } else {
                                    Ok((offset_address(e1.spec_addr(), va & PAGE_OFFSET_MASK), PageLevel::Phys))
                                },
                            }
                        },
                    }
                },
            }
        },
    }
}

/// A huge page met by the translation of `va` maps it below the 52-bit
/// physical limit (adding the offset to a huge entry's address otherwise
/// leaves the physical address range).
pub open spec fn huge_mapping_in_range<M: MemPhysical>(m: M, pml4: u64, va: u64) -> bool {
    match entry_at(m, pml4e_address(pml4, va)) {
        Some(e4) if e4.spec_present() => match entry_at(m, pdpte_address(e4, va)) {
            Some(e3) if e3.spec_present() => if e3.spec_huge() {
                e3.spec_addr() + (va & HUGE_1G_OFFSET_MASK) < PHYS_ADDR_LIMIT
            } else {
                match entry_at(m, pde_address(e3, va)) {
                    Some(e2) if e2.spec_present() && e2.spec_huge() =>
                        e2.spec_addr() + (va & HUGE_2M_OFFSET_MASK) < PHYS_ADDR_LIMIT,
                    _ => true,
                }
            },
            _ => true,
        },
        _ => true,
    }
}

proof fn lemma_index_bound(va: u64)
    ensures
        pml4_index(va) < 512,
        pdpt_index(va) < 512,
        pd_index(va) < 512,
        pt_index(va) < 512,
        va & PAGE_OFFSET_MASK < 4096,
{
    assert((va >> 39u64) & 0x1ffu64 < 512) by (bit_vector);
    assert((va >> 30u64) & 0x1ffu64 < 512) by (bit_vector);
    assert((va >> 21u64) & 0x1ffu64 < 512) by (bit_vector);
    assert((va >> 12u64) & 0x1ffu64 < 512) by (bit_vector);
    assert(va & 0xfffu64 < 4096) by (bit_vector);
}

proof fn lemma_entry_addr_bound(e: PageTableEntry)
    ensures
        e.spec_addr() + 4095 < PHYS_ADDR_LIMIT,
{
    let x = e.entry;
    assert((x & 0x000f_ffff_ffff_f000u64) + 4095 < 0x10_0000_0000_0000u64) by (bit_vector);
}

/// Reads one 64-bit value from physical memory at `phys`, in the byte order
/// of the x86-64 architecture (little endian).
pub fn read_physical_memory_t<M: MemPhysical>(phys: u64, read_physical: &mut M) -> (r: Result<u64, M::E>)
    ensures
        final(read_physical).obeys_phys_spec() == old(read_physical).obeys_phys_spec(),
        old(read_physical).obeys_phys_spec() ==> same_memory(*final(read_physical), *old(read_physical)),
        old(read_physical).obeys_phys_spec() ==> final(read_physical).reads() == old(read_physical).reads() + entry_read(phys),
        old(read_physical).obeys_phys_spec() ==> {
            &&& r is Ok <==> old(read_physical).phys_read(phys, 8) is Some
            &&& r is Ok ==> r->Ok_0 == spec_u64_from_le_bytes(old(read_physical).phys_read(phys, 8)->0)
        },
{
    let mut buf = [0u8; 8];
    let r = read_physical.read_physical(phys, &mut buf);
    match r {
        Ok(()) => Ok(vstd::bytes::u64_from_le_bytes(&buf)),
        Err(e) => Err(e),
    }
}

/// Reads a page table entry through `read_physical`, mapping a failed read to
/// [`WalkErr::ReadErr`].
fn read_entry_at<M: MemPhysical>(addr: u64, read_physical: &mut M) -> (r: Result<PageTableEntry, WalkErr<M::E>>)
    ensures
        final(read_physical).obeys_phys_spec() == old(read_physical).obeys_phys_spec(),
        old(read_physical).obeys_phys_spec() ==> same_memory(*final(read_physical), *old(read_physical)),
        old(read_physical).obeys_phys_spec() ==> final(read_physical).reads() == old(read_physical).reads() + entry_read(addr),
        old(read_physical).obeys_phys_spec() ==> erase_result(r) == spec_read_entry(*old(read_physical), addr),
{
    match read_physical_memory_t(addr, read_physical) {
        Ok(v) => Ok(PageTableEntry::new(v)),
        Err(e) => Err(WalkErr::ReadErr(e)),
    }
}

/// Reads the entry `idx` of the page table located at physical address
/// `table`. A failed read gives [`WalkErr::ReadErr`].
pub fn read_page_table_entry_e<M: MemPhysical>(table: u64, idx: u64, read_physical: &mut M) -> (r: Result<PageTableEntry, WalkErr<M::E>>)
    requires
        idx < 512,
        table + idx * ENTRY_SIZE < PHYS_ADDR_LIMIT,
    ensures
        final(read_physical).obeys_phys_spec() == old(read_physical).obeys_phys_spec(),
        old(read_physical).obeys_phys_spec() ==> same_memory(*final(read_physical), *old(read_physical)),
        old(read_physical).obeys_phys_spec() ==> final(read_physical).reads() == old(read_physical).reads() + entry_read(entry_address(table, idx)),
        old(read_physical).obeys_phys_spec() ==> erase_result(r) == spec_read_entry(*old(read_physical), entry_address(table, idx)),
{
    let addr = phys_addr_add(table, idx * ENTRY_SIZE);
    read_entry_at(addr, read_physical)
}

/// Returns the physical address of the page table entry (PTE) mapping `va`:
/// [`get_address_of_level`] at [`PageLevel::Pt`].
pub fn get_pte<M: MemPhysical>(pml4_phys: u64, va: u64, read_physical: &mut M) -> (r: Result<u64, WalkLevelErr<M::E>>)
    requires
        pml4_phys + pml4_index(va) * ENTRY_SIZE < PHYS_ADDR_LIMIT,
    ensures
        final(read_physical).obeys_phys_spec() == old(read_physical).obeys_phys_spec(),
        old(read_physical).obeys_phys_spec() ==> same_memory(*final(read_physical), *old(read_physical)),
        old(read_physical).obeys_phys_spec() ==> final(read_physical).reads() == old(read_physical).reads() + level_reads(*old(read_physical), pml4_phys, va, PageLevel::Pt),
        old(read_physical).obeys_phys_spec()
            ==> erase_level_result(r) == spec_address_of_level(*old(read_physical), pml4_phys, va, PageLevel::Pt),
{
    get_address_of_level(pml4_phys, va, PageLevel::Pt, read_physical)
}

/// Returns the physical address of the page-table entry for `va` at `level`
/// (for [`PageLevel::Phys`], the translated address of a 4 KiB page).
///
/// Fails with [`WalkErr`] when an entry on the way cannot be read or is not
/// present, and with [`WalkLevelErr::HugePageBeforeLevel`] when a huge page
/// ends the walk before `level`. The entries read are those of
/// [`level_reads`], in that order: one per level above `level`, none after a
/// failing step or below a huge page.
pub fn get_address_of_level<M: MemPhysical>(pml4_phys: u64, va: u64, level: PageLevel, read_physical: &mut M) -> (r: Result<u64, WalkLevelErr<M::E>>)
    requires
        pml4_phys + pml4_index(va) * ENTRY_SIZE < PHYS_ADDR_LIMIT,
    ensures
        final(read_physical).obeys_phys_spec() == old(read_physical).obeys_phys_spec(),
        old(read_physical).obeys_phys_spec() ==> same_memory(*final(read_physical), *old(read_physical)),
        old(read_physical).obeys_phys_spec() ==> final(read_physical).reads() == old(read_physical).reads() + level_reads(*old(read_physical), pml4_phys, va, level),
        old(read_physical).obeys_phys_spec()
            ==> erase_level_result(r) == spec_address_of_level(*old(read_physical), pml4_phys, va, level),
        level == PageLevel::Pml4 ==> r == Ok::<u64, WalkLevelErr<M::E>>(pml4e_address(pml4_phys, va))
            && *final(read_physical) == *old(read_physical),
{
    let ghost m0 = *read_physical;
    proof {
        lemma_index_bound(va);
    }
    let pml4_idx = p4_index(va);
    let addr = phys_addr_new(pml4_phys + pml4_idx * ENTRY_SIZE);
    if level == PageLevel::Pml4 {
        return Ok(addr);
    }
    let pml4e = match read_entry_at(addr, read_physical) {
        Ok(e) => e,
        Err(e) => return Err(WalkLevelErr::WalkErr(e)),
    };
    if !pml4e.is_present() {
        return Err(WalkLevelErr::WalkErr(WalkErr::InvalidPml4(pml4e)));
    }
    proof {
        lemma_entry_addr_bound(pml4e);
    }
    let addr = phys_addr_add(pml4e.addr(), p3_index(va) * ENTRY_SIZE);
    if level == PageLevel::Pdpt {
        return Ok(addr);
    }
    let pdpte = match read_entry_at(addr, read_physical) {
        Ok(e) => e,
        Err(e) => return Err(WalkLevelErr::WalkErr(e)),
    };
    if !pdpte.is_present() {
        return Err(WalkLevelErr::WalkErr(WalkErr::InvalidPdpt(pdpte)));
    }
    if pdpte.is_huge() {
        return Err(WalkLevelErr::HugePageBeforeLevel);
    }
    proof {
        lemma_entry_addr_bound(pdpte);
    }
    let addr = phys_addr_add(pdpte.addr(), p2_index(va) * ENTRY_SIZE);
    if level == PageLevel::Pd {
        return Ok(addr);
    }
    let pde = match read_entry_at(addr, read_physical) {
        Ok(e) => e,
        Err(e) => return Err(WalkLevelErr::WalkErr(e)),
    };
    if !pde.is_present() {
        return Err(WalkLevelErr::WalkErr(WalkErr::InvalidPde(pde)));
    }
    if pde.is_huge() {
        return Err(WalkLevelErr::HugePageBeforeLevel);
    }
    proof {
        lemma_entry_addr_bound(pde);
    }
    let addr = phys_addr_add(pde.addr(), p1_index(va) * ENTRY_SIZE);
    if level == PageLevel::Pt {
        return Ok(addr);
    }
    let pte = match read_entry_at(addr, read_physical) {
        Ok(e) => e,
        Err(e) => return Err(WalkLevelErr::WalkErr(e)),
    };
    if !pte.is_present() {
        return Err(WalkLevelErr::WalkErr(WalkErr::InvalidPte(pte)));
    }
    proof {
        lemma_entry_addr_bound(pte);
    }
    Ok(phys_addr_add(pte.addr(), va & PAGE_OFFSET_MASK))
}

/// Whether the translation of `va` from the PML4 at `pml4_phys` stays within
/// the physical address range: a 1 GiB or 2 MiB page met on the way must map
/// `va` below the 52-bit limit. Where the walk fails before a huge page, or
/// meets none, nothing is out of range. Callers test this before
/// [`virtual_to_physical`], which cannot form such an address. It reads the
/// entries down to the page directory, as a walk toward the page table does.
pub fn huge_mapping_fits<M: MemPhysical>(pml4_phys: u64, va: u64, read_physical: &mut M) -> (r: bool)
    requires
        pml4_phys + pml4_index(va) * ENTRY_SIZE < PHYS_ADDR_LIMIT,
    ensures
        final(read_physical).obeys_phys_spec() == old(read_physical).obeys_phys_spec(),
        old(read_physical).obeys_phys_spec() ==> same_memory(*final(read_physical), *old(read_physical)),
        old(read_physical).obeys_phys_spec() ==> final(read_physical).reads() == old(read_physical).reads() + level_reads(*old(read_physical), pml4_phys, va, PageLevel::Pt),
        old(read_physical).obeys_phys_spec() ==> r == huge_mapping_in_range(*old(read_physical), pml4_phys, va),
{
    proof {
        lemma_index_bound(va);
    }
    let pml4e = match read_entry_at(pml4_phys + p4_index(va) * ENTRY_SIZE, read_physical) {
        Ok(e) => e,
        Err(_) => return true,
    };
    if !pml4e.is_present() {
        return true;
    }
    proof {
        lemma_entry_addr_bound(pml4e);
    }
    let pdpte = match read_entry_at(pml4e.addr() + p3_index(va) * ENTRY_SIZE, read_physical) {
        Ok(e) => e,
        Err(_) => return true,
    };
    if !pdpte.is_present() {
        return true;
    }
    if pdpte.is_huge() {
        return pdpte.addr() as u128 + ((va & HUGE_1G_OFFSET_MASK) as u128) < PHYS_ADDR_LIMIT as u128;
    }
    proof {
        lemma_entry_addr_bound(pdpte);
    }
    let pde = match read_entry_at(pdpte.addr() + p2_index(va) * ENTRY_SIZE, read_physical) {
        Ok(e) => e,
        Err(_) => return true,
    };
    if pde.is_present() && pde.is_huge() {
        return pde.addr() as u128 + ((va & HUGE_2M_OFFSET_MASK) as u128) < PHYS_ADDR_LIMIT as u128;
    }
    true
}

/// Translates `va` into its physical address by a full walk from the PML4 at
/// `pml4_phys`. Returns the address and the level where the walk ended:
/// [`PageLevel::Pdpt`] for a 1 GiB page, [`PageLevel::Pd`] for a 2 MiB page,
/// [`PageLevel::Phys`] for a 4 KiB page. The entries read are those of
/// [`level_reads`] toward [`PageLevel::Phys`].
///
/// With a reader that does not follow the model, a huge entry whose page
/// would end past the physical address range is reported as invalid at its
/// level; for one that does, the precondition rules that case out.
pub fn virtual_to_physical<M: MemPhysical>(pml4_phys: u64, va: u64, read_physical: &mut M) -> (r: Result<(u64, PageLevel), WalkErr<M::E>>)
    requires
        pml4_phys + pml4_index(va) * ENTRY_SIZE < PHYS_ADDR_LIMIT,
        old(read_physical).obeys_phys_spec() ==> huge_mapping_in_range(*old(read_physical), pml4_phys, va),
    ensures
        final(read_physical).obeys_phys_spec() == old(read_physical).obeys_phys_spec(),
        old(read_physical).obeys_phys_spec() ==> same_memory(*final(read_physical), *old(read_physical)),
        old(read_physical).obeys_phys_spec() ==> final(read_physical).reads() == old(read_physical).reads() + level_reads(*old(read_physical), pml4_phys, va, PageLevel::Phys),
        old(read_physical).obeys_phys_spec() ==> erase_result(r) == spec_virtual_to_physical(*old(read_physical), pml4_phys, va),
{
    proof {
        lemma_index_bound(va);
    }
    let pml4e = read_page_table_entry_e(pml4_phys, p4_index(va), read_physical)?;
    if !pml4e.is_present() {
        return Err(WalkErr::InvalidPml4(pml4e));
    }
    proof {
        lemma_entry_addr_bound(pml4e);
    }
    let pdpte = read_page_table_entry_e(pml4e.addr(), p3_index(va), read_physical)?;
    if !pdpte.is_present() {
        return Err(WalkErr::InvalidPdpt(pdpte));
    }
    if pdpte.is_huge() {
        if pdpte.addr() as u128 + (va & HUGE_1G_OFFSET_MASK) as u128 >= PHYS_ADDR_LIMIT as u128 {
            // Ruled out by the precondition for a reader that follows the model.
            return Err(WalkErr::InvalidPdpt(pdpte));
        }
        return Ok((phys_addr_add(pdpte.addr(), va & HUGE_1G_OFFSET_MASK), PageLevel::Pdpt));
    }
    proof {
        lemma_entry_addr_bound(pdpte);
    }
    let pde = read_page_table_entry_e(pdpte.addr(), p2_index(va), read_physical)?;
    if !pde.is_present() {
        return Err(WalkErr::InvalidPde(pde));
    }
    if pde.is_huge() {
        if pde.addr() as u128 + (va & HUGE_2M_OFFSET_MASK) as u128 >= PHYS_ADDR_LIMIT as u128 {
            // Ruled out by the precondition for a reader that follows the model.
            return Err(WalkErr::InvalidPde(pde));
        }
        return Ok((phys_addr_add(pde.addr(), va & HUGE_2M_OFFSET_MASK), PageLevel::Pd));
    }
    proof {
        lemma_entry_addr_bound(pde);
    }
    let pte = read_page_table_entry_e(pde.addr(), p1_index(va), read_physical)?;
    if !pte.is_present() {
        return Err(WalkErr::InvalidPte(pte));
    }
    proof {
        lemma_entry_addr_bound(pte);
    }
    Ok((phys_addr_add(pte.addr(), va & PAGE_OFFSET_MASK), PageLevel::Phys))
}

} // verus!

verus! {

/// How many levels lie above `level`: the most entries a walk toward it
/// reads.
pub open spec fn level_depth(level: PageLevel) -> nat {
    match level {
        PageLevel::Pml4 => 0,
        PageLevel::Pdpt => 1,
        PageLevel::Pd => 2,
        PageLevel::Pt => 3,
        PageLevel::Phys => 4,
    }
}

/// A walk toward a level reads at most one entry per level above it, each
/// of eight bytes, and a walk toward a shallower level reads a prefix of
/// what a walk toward a deeper one reads.
pub proof fn lemma_level_reads_nest<M: MemPhysical>(m: M, pml4: u64, va: u64, shallow: PageLevel, deep: PageLevel)
    requires
        level_depth(shallow) <= level_depth(deep),
    ensures
        level_reads(m, pml4, va, deep).len() <= level_depth(deep),
        level_reads(m, pml4, va, shallow).len() <= level_reads(m, pml4, va, deep).len(),
        level_reads(m, pml4, va, deep).subrange(0, level_reads(m, pml4, va, shallow).len() as int)
            == level_reads(m, pml4, va, shallow),
        forall|i: int| 0 <= i < level_reads(m, pml4, va, deep).len() ==> (#[trigger] level_reads(m, pml4, va, deep)[i]).1 == 8,
{
    let s = level_reads(m, pml4, va, shallow);
    let d = level_reads(m, pml4, va, deep);
    assert(d.subrange(0, s.len() as int) =~= s);
}

/// Two readers that see the same physical memory walk alike: the same
/// outcome toward every level, the same translation and the same reads. In
/// particular walking to [`PageLevel::Phys`] with one gives `pa` exactly when
/// translating with the other ends on a 4 KiB page at `pa`, and a
/// translation that ends on a huge page with one makes the walk to `Phys`
/// with the other stop with [`WalkLevelErr::HugePageBeforeLevel`].
pub proof fn lemma_same_memory_same_walk<M: MemPhysical>(m1: M, m2: M, pml4: u64, va: u64, level: PageLevel, pa: u64)
    requires
        same_memory(m1, m2),
    ensures
        spec_address_of_level(m1, pml4, va, level) == spec_address_of_level(m2, pml4, va, level),
        spec_virtual_to_physical(m1, pml4, va) == spec_virtual_to_physical(m2, pml4, va),
        level_reads(m1, pml4, va, level) == level_reads(m2, pml4, va, level),
        spec_address_of_level(m1, pml4, va, PageLevel::Phys) == Ok::<u64, WalkLevelErr<()>>(pa)
            <==> spec_virtual_to_physical(m2, pml4, va) == Ok::<(u64, PageLevel), WalkErr<()>>((pa, PageLevel::Phys)),
        (spec_virtual_to_physical(m2, pml4, va) matches Ok((_, l)) && l != PageLevel::Phys)
            ==> spec_address_of_level(m1, pml4, va, PageLevel::Phys) == Err::<u64, WalkLevelErr<()>>(WalkLevelErr::HugePageBeforeLevel),
{
    assert forall|a: u64| #[trigger] entry_at(m1, a) == entry_at(m2, a) by {
        assert(m1.phys_read(a, 8) == m2.phys_read(a, 8));
    }
    lemma_translation_matches_level_walk(m1, pml4, va, pa);
    if spec_virtual_to_physical(m1, pml4, va) matches Ok((_, l)) && l != PageLevel::Phys {
        lemma_huge_translation_has_no_pte(m1, pml4, va, PageLevel::Phys);
    }
}

/// A 4 KiB translation and the walk to [`PageLevel::Phys`] agree: a full
/// translation ends on a 4 KiB page at `pa` exactly when walking to the
/// `Phys` level returns `pa`.
pub proof fn lemma_translation_matches_level_walk<M: MemPhysical>(m: M, pml4: u64, va: u64, pa: u64)
    ensures
        spec_virtual_to_physical(m, pml4, va) == Ok::<(u64, PageLevel), WalkErr<()>>((pa, PageLevel::Phys))
            <==> spec_address_of_level(m, pml4, va, PageLevel::Phys) == Ok::<u64, WalkLevelErr<()>>(pa),
{
}

/// When a translation ends on a huge page, a walk to [`PageLevel::Pt`] or
/// [`PageLevel::Phys`] stops with [`WalkLevelErr::HugePageBeforeLevel`].
pub proof fn lemma_huge_translation_has_no_pte<M: MemPhysical>(m: M, pml4: u64, va: u64, level: PageLevel)
    requires
        spec_virtual_to_physical(m, pml4, va) matches Ok((_, l)) && l != PageLevel::Phys,
        level == PageLevel::Pt || level == PageLevel::Phys,
    ensures
        spec_address_of_level(m, pml4, va, level) == Err::<u64, WalkLevelErr<()>>(WalkLevelErr::HugePageBeforeLevel),
{
}

/// A translation to a 4 KiB page keeps the offset of `va` inside the page.
pub proof fn lemma_translation_keeps_page_offset<M: MemPhysical>(m: M, pml4: u64, va: u64, pa: u64)
    requires
        spec_virtual_to_physical(m, pml4, va) == Ok::<(u64, PageLevel), WalkErr<()>>((pa, PageLevel::Phys)),
    ensures
        pa & PAGE_OFFSET_MASK == va & PAGE_OFFSET_MASK,
{
    let e4 = entry_at(m, pml4e_address(pml4, va))->0;
    let e3 = entry_at(m, pdpte_address(e4, va))->0;
    let e2 = entry_at(m, pde_address(e3, va))->0;
    let e1 = entry_at(m, pte_address(e2, va))->0;
    let x = e1.entry;
    assert(((x & 0x000f_ffff_ffff_f000u64) + (va & 0xfffu64)) as u64 & 0xfffu64 == va & 0xfffu64) by (bit_vector);
}

/// A translation that ends on a huge page keeps the offset of `va` inside
/// that page: on a 1 GiB page ([`PageLevel::Pdpt`]) the address lies in the
/// GiB that the present, huge PDPT entry maps, at the offset of `va` modulo
/// 1 GiB; on a 2 MiB page ([`PageLevel::Pd`]) it lies in the 2 MiB that the
/// present, huge PD entry maps, at the offset of `va` modulo 2 MiB. When the
/// page's base is aligned to its size, `pa` and `va` agree on every offset
/// bit of the page.
pub proof fn lemma_huge_translation_keeps_offset<M: MemPhysical>(m: M, pml4: u64, va: u64, pa: u64, level: PageLevel)
    requires
        spec_virtual_to_physical(m, pml4, va) == Ok::<(u64, PageLevel), WalkErr<()>>((pa, level)),
        level != PageLevel::Phys,
    ensures
        ({
            let e4 = entry_at(m, pml4e_address(pml4, va))->0;
            let e3 = entry_at(m, pdpte_address(e4, va))->0;
            let e2 = entry_at(m, pde_address(e3, va))->0;
            &&& e4.spec_present() && e3.spec_present()
            &&& level == PageLevel::Pdpt ==> {
                &&& e3.spec_huge()
                &&& pa as int - e3.spec_addr() as int == va as int % 0x4000_0000
                &&& e3.spec_addr() % 0x4000_0000 == 0 ==> pa % 0x4000_0000 == va % 0x4000_0000
            }
            &&& level == PageLevel::Pd ==> {
                &&& !e3.spec_huge() && e2.spec_present() && e2.spec_huge()
                &&& pa as int - e2.spec_addr() as int == va as int % 0x20_0000
                &&& e2.spec_addr() % 0x20_0000 == 0 ==> pa % 0x20_0000 == va % 0x20_0000
            }
        }),
{
    let e4 = entry_at(m, pml4e_address(pml4, va))->0;
    let e3 = entry_at(m, pdpte_address(e4, va))->0;
    let e2 = entry_at(m, pde_address(e3, va))->0;
    assert(va & 0x3fff_ffffu64 == va % 0x4000_0000) by (bit_vector);
    assert(va & 0x1f_ffffu64 == va % 0x20_0000) by (bit_vector);
    lemma_entry_addr_bound(e3);
    lemma_entry_addr_bound(e2);
    if level == PageLevel::Pdpt {
        let b = e3.spec_addr();
        assert(pa == (b + va % 0x4000_0000) as u64);
        assert(b % 0x4000_0000 == 0 ==> (b + va % 0x4000_0000) % 0x4000_0000 == va % 0x4000_0000) by (nonlinear_arith)
            requires va % 0x4000_0000 < 0x4000_0000;
    } else {
        let b = e2.spec_addr();
        assert(pa == (b + va % 0x20_0000) as u64);
        assert(b % 0x20_0000 == 0 ==> (b + va % 0x20_0000) % 0x20_0000 == va % 0x20_0000) by (nonlinear_arith)
            requires va % 0x20_0000 < 0x20_0000;
    }
}

/// A walk reaches a level only through present entries: every entry above
/// the level was read and is present, and none of them maps a huge page.
pub proof fn lemma_level_walk_needs_present_entries<M: MemPhysical>(m: M, pml4: u64, va: u64, level: PageLevel, a: u64)
    requires
        spec_address_of_level(m, pml4, va, level) == Ok::<u64, WalkLevelErr<()>>(a),
    ensures
        ({
            let e4 = entry_at(m, pml4e_address(pml4, va));
            let e3 = entry_at(m, pdpte_address(e4->0, va));
            let e2 = entry_at(m, pde_address(e3->0, va));
            let e1 = entry_at(m, pte_address(e2->0, va));
            &&& level_depth(level) >= 1 ==> e4 is Some && e4->0.spec_present()
            &&& level_depth(level) >= 2 ==> e3 is Some && e3->0.spec_present() && !e3->0.spec_huge()
            &&& level_depth(level) >= 3 ==> e2 is Some && e2->0.spec_present() && !e2->0.spec_huge()
            &&& level_depth(level) >= 4 ==> e1 is Some && e1->0.spec_present()
        }),
{
}

/// An entry on the way that is not present ends the walk toward every
/// deeper level with the error of its own level, carrying that entry.
pub proof fn lemma_absent_entry_ends_walk<M: MemPhysical>(m: M, pml4: u64, va: u64, level: PageLevel)
    ensures
        ({
            let e4 = entry_at(m, pml4e_address(pml4, va));
            let e3 = entry_at(m, pdpte_address(e4->0, va));
            let e2 = entry_at(m, pde_address(e3->0, va));
            &&& (level_depth(level) >= 1 && e4 is Some && !e4->0.spec_present())
                ==> spec_address_of_level(m, pml4, va, level)
                    == Err::<u64, WalkLevelErr<()>>(WalkLevelErr::WalkErr(WalkErr::InvalidPml4(e4->0)))
            &&& (level_depth(level) >= 2 && e4 is Some && e4->0.spec_present() && e3 is Some && !e3->0.spec_present())
                ==> spec_address_of_level(m, pml4, va, level)
                    == Err::<u64, WalkLevelErr<()>>(WalkLevelErr::WalkErr(WalkErr::InvalidPdpt(e3->0)))
            &&& (level_depth(level) >= 3 && e4 is Some && e4->0.spec_present() && e3 is Some && e3->0.spec_present()
                && !e3->0.spec_huge() && e2 is Some && !e2->0.spec_present())
                ==> spec_address_of_level(m, pml4, va, level)
                    == Err::<u64, WalkLevelErr<()>>(WalkLevelErr::WalkErr(WalkErr::InvalidPde(e2->0)))
        }),
{
}

/// Walking one level deeper reads the entry found at the shallower level:
/// the PT entry address for `va` lies in the table that its PD entry points to,
/// and so on up to the PML4 entry.
pub proof fn lemma_level_walk_nests<M: MemPhysical>(m: M, pml4: u64, va: u64, a1: u64)
    requires
        spec_address_of_level(m, pml4, va, PageLevel::Pt) == Ok::<u64, WalkLevelErr<()>>(a1),
    ensures
        spec_address_of_level(m, pml4, va, PageLevel::Pml4) == Ok::<u64, WalkLevelErr<()>>(pml4e_address(pml4, va)),
        ({
            let e4 = entry_at(m, pml4e_address(pml4, va))->0;
            let e3 = entry_at(m, pdpte_address(e4, va))->0;
            let e2 = entry_at(m, pde_address(e3, va))->0;
            &&& spec_address_of_level(m, pml4, va, PageLevel::Pdpt) == Ok::<u64, WalkLevelErr<()>>(pdpte_address(e4, va))
            &&& spec_address_of_level(m, pml4, va, PageLevel::Pd) == Ok::<u64, WalkLevelErr<()>>(pde_address(e3, va))
            &&& a1 == pte_address(e2, va)
            &&& e4.spec_present() && e3.spec_present() && !e3.spec_huge() && e2.spec_present() && !e2.spec_huge()
        }),
{
}

} // verus!


verus! {

/// The page-walking routines as methods of any [`MemPhysical`] reader.
pub trait PageWalker: MemPhysical {
    /// [`read_page_table_entry_e`] with this reader.
    fn read_page_table_entry_e(&mut self, table: u64, idx: u64) -> (r: Result<PageTableEntry, WalkErr<Self::E>>)
        requires
            idx < 512,
            table + idx * ENTRY_SIZE < PHYS_ADDR_LIMIT,
        ensures
            final(self).obeys_phys_spec() == old(self).obeys_phys_spec(),
            old(self).obeys_phys_spec() ==> same_memory(*final(self), *old(self)),
            old(self).obeys_phys_spec() ==> final(self).reads() == old(self).reads() + entry_read(entry_address(table, idx)),
            old(self).obeys_phys_spec() ==> erase_result(r) == spec_read_entry(*old(self), entry_address(table, idx)),
    ;

    /// [`get_address_of_level`] with this reader.
    fn get_address_of_level(&mut self, pml4_phys: u64, va: u64, level: PageLevel) -> (r: Result<u64, WalkLevelErr<Self::E>>)
        requires
            pml4_phys + pml4_index(va) * ENTRY_SIZE < PHYS_ADDR_LIMIT,
        ensures
            final(self).obeys_phys_spec() == old(self).obeys_phys_spec(),
            old(self).obeys_phys_spec() ==> same_memory(*final(self), *old(self)),
            old(self).obeys_phys_spec() ==> final(self).reads() == old(self).reads() + level_reads(*old(self), pml4_phys, va, level),
            old(self).obeys_phys_spec() ==> erase_level_result(r) == spec_address_of_level(*old(self), pml4_phys, va, level),
            level == PageLevel::Pml4 ==> r == Ok::<u64, WalkLevelErr<Self::E>>(pml4e_address(pml4_phys, va))
                && *final(self) == *old(self),
    ;

    /// [`virtual_to_physical`] with this reader.
    fn virtual_to_physical(&mut self, pml4_phys: u64, va: u64) -> (r: Result<(u64, PageLevel), WalkErr<Self::E>>)
        requires
            pml4_phys + pml4_index(va) * ENTRY_SIZE < PHYS_ADDR_LIMIT,
            old(self).obeys_phys_spec() ==> huge_mapping_in_range(*old(self), pml4_phys, va),
        ensures
            final(self).obeys_phys_spec() == old(self).obeys_phys_spec(),
            old(self).obeys_phys_spec() ==> same_memory(*final(self), *old(self)),
            old(self).obeys_phys_spec() ==> final(self).reads() == old(self).reads() + level_reads(*old(self), pml4_phys, va, PageLevel::Phys),
            old(self).obeys_phys_spec() ==> erase_result(r) == spec_virtual_to_physical(*old(self), pml4_phys, va),
    ;
}

impl<M: MemPhysical> PageWalker for M {
    fn read_page_table_entry_e(&mut self, table: u64, idx: u64) -> (r: Result<PageTableEntry, WalkErr<Self::E>>) {
        read_page_table_entry_e(table, idx, self)
    }

    fn get_address_of_level(&mut self, pml4_phys: u64, va: u64, level: PageLevel) -> (r: Result<u64, WalkLevelErr<Self::E>>) {
        get_address_of_level(pml4_phys, va, level, self)
    }

    fn virtual_to_physical(&mut self, pml4_phys: u64, va: u64) -> (r: Result<(u64, PageLevel), WalkErr<Self::E>>) {
        virtual_to_physical(pml4_phys, va, self)
    }
}

} // verus!
