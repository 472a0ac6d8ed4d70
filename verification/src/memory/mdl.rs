//! Memory Descriptor List (MDL) bookkeeping.
//!
//! An [`Mdl`] owns a Windows MDL describing a virtual memory range and
//! remembers whether its pages are locked; an [`MdlMap`] is a system mapping
//! of a locked MDL, which cannot outlive it.
//!
//! Typical use: create the MDL ([`Mdl::new`]), lock its pages
//! ([`Mdl::lock`]), map them ([`Mdl::map_locked`]), optionally change the
//! protection of the mapping ([`MdlMap::protect`]), access the memory, then
//! unmap and release ([`MdlMap::unmap`], [`Mdl::release`]), which unlocks the
//! pages when they are still locked.
//!
//! The kernel routines (`IoAllocateMdl`, `MmProbeAndLockPages`,
//! `MmUnlockPages`, `MmMapLockedPagesSpecifyCache`,
//! `MmProtectMdlSystemAddress`, `MmUnmapLockedPages`, `IoFreeMdl`) are called
//! through closures that the caller supplies.
use vstd::prelude::*;
use core::marker::PhantomData;
use crate::sys::{KPROCESSOR_MODE, LOCK_OPERATION, MEMORY_CACHING_TYPE, MM_PAGE_PRIORITY};

verus! {

/// Owns a Windows MDL.
pub struct Mdl {
    mdl: u64,
    locked: bool,
}

/// What an [`Mdl`] holds: the MDL's address and whether its pages are locked.
pub struct MdlView {
    pub mdl: u64,
    pub locked: bool,
}

impl View for Mdl {
    type V = MdlView;

    closed spec fn view(&self) -> MdlView {
        MdlView { mdl: self.mdl, locked: self.locked }
    }
}

/// A system mapping of the pages of a locked [`Mdl`].
pub struct MdlMap<'a, T> {
    mdl_ref: &'a Mdl,
    mapped: u64,
    value: PhantomData<T>,
}

impl<'a, T> MdlMap<'a, T> {
    /// Address of the mapping.
    pub closed spec fn spec_mapped(&self) -> u64 {
        self.mapped
    }

    /// The MDL the mapping was made from.
    pub closed spec fn spec_mdl(&self) -> u64 {
        self.mdl_ref.mdl
    }

    /// Address of the mapping.
    pub fn as_ptr(&self) -> (r: u64)
        ensures
            r == self.spec_mapped(),
    {
        self.mapped
    }

    /// Address of the mapping, for writing.
    pub fn as_mut_ptr(&mut self) -> (r: u64)
        ensures
            r == old(self).spec_mapped(),
            final(self).spec_mapped() == old(self).spec_mapped(),
            final(self).spec_mdl() == old(self).spec_mdl(),
    {
        self.mapped
    }

    /// Changes the protection of the mapping to `new_protect` through
    /// `mm_protect_mdl_system_address`, called with the MDL and the protection.
    pub fn protect<F: FnOnce(u64, u32) -> i32>(&self, new_protect: u32, mm_protect_mdl_system_address: F)
        requires
            call_requires(mm_protect_mdl_system_address, (self.spec_mdl(), new_protect)),
        ensures
            exists|status: i32| #[trigger] call_ensures(mm_protect_mdl_system_address, (self.spec_mdl(), new_protect), status),
    {
        self.mdl_ref.protect(new_protect, mm_protect_mdl_system_address)
    }

    /// Ends the mapping through `mm_unmap_locked_pages`, called with the
    /// mapped address and the MDL.
    pub fn unmap<F: FnOnce(u64, u64)>(self, mm_unmap_locked_pages: F)
        requires
            call_requires(mm_unmap_locked_pages, (self.spec_mapped(), self.spec_mdl())),
        ensures
            call_ensures(mm_unmap_locked_pages, (self.spec_mapped(), self.spec_mdl()), ()),
    {
        mm_unmap_locked_pages(self.mapped, self.mdl_ref.mdl)
    }
}

/// The base address requested for a mapping: the address given, or zero to
/// let the system choose.
pub open spec fn requested_address(request_addr: Option<u64>) -> u64 {
    match request_addr {
        Some(a) => a,
        None => 0,
    }
}

/// The `BugCheckOnFailure` argument.
pub open spec fn bug_check_flag(b: bool) -> u32 {
    if b {
        1
    } else {
        0
    }
}

impl Mdl {
    /// Describes the `size` bytes at `dest` with a new MDL, allocated through
    /// `io_allocate_mdl` (given the address, the length as a 32-bit count, and
    /// returning the MDL or null). `None` when no MDL could be allocated.
    pub fn new<F: FnOnce(u64, u32) -> u64>(dest: u64, size: usize, io_allocate_mdl: F) -> (r: Option<Self>)
        requires
            call_requires(io_allocate_mdl, (dest, size as u32)),
        ensures
            exists|mdl: u64|
                {
                    &&& #[trigger] call_ensures(io_allocate_mdl, (dest, size as u32), mdl)
                    &&& mdl == 0 ==> r is None
                    &&& mdl != 0 ==> (r matches Some(m) && m@ == (MdlView { mdl, locked: false }))
                },
    {
        let mdl = io_allocate_mdl(dest, size as u32);
        if mdl == 0 {
            return None;
        }
        Some(Mdl { mdl, locked: false })
    }

    /// Probes and locks the described pages through
    /// `mm_probe_and_lock_pages`; the pages are then locked.
    pub fn lock<F: FnOnce(u64, KPROCESSOR_MODE, LOCK_OPERATION)>(
        &mut self,
        access_mode: KPROCESSOR_MODE,
        lock_operation: LOCK_OPERATION,
        mm_probe_and_lock_pages: F,
    )
        requires
            call_requires(mm_probe_and_lock_pages, (old(self)@.mdl, access_mode, lock_operation)),
        ensures
            call_ensures(mm_probe_and_lock_pages, (old(self)@.mdl, access_mode, lock_operation), ()),
            final(self)@ == (MdlView { mdl: old(self)@.mdl, locked: true }),
    {
        mm_probe_and_lock_pages(self.mdl, access_mode, lock_operation);
        self.locked = true;
    }

    /// Unlocks the described pages through `mm_unlock_pages`; the pages are
    /// then unlocked.
    pub fn unlock<F: FnOnce(u64)>(&mut self, mm_unlock_pages: F)
        requires
            call_requires(mm_unlock_pages, (old(self)@.mdl,)),
        ensures
            call_ensures(mm_unlock_pages, (old(self)@.mdl,), ()),
            final(self)@ == (MdlView { mdl: old(self)@.mdl, locked: false }),
    {
        mm_unlock_pages(self.mdl);
        self.locked = false;
    }

    /// Maps the locked pages into system space through
    /// `mm_map_locked_pages_specify_cache` (given the MDL, access mode,
    /// caching, requested address or zero, the bug-check flag and the page
    /// priority, and returning the mapping or null). `None` when no mapping was
    /// made.
    pub fn map_locked<'a, T, F: FnOnce(u64, KPROCESSOR_MODE, MEMORY_CACHING_TYPE, u64, u32, u32) -> u64>(
        &'a mut self,
        access_mode: KPROCESSOR_MODE,
        mm_caching: MEMORY_CACHING_TYPE,
        request_addr: Option<u64>,
        bug_check_on_failure: bool,
        mm_page_priority: MM_PAGE_PRIORITY,
        mm_map_locked_pages_specify_cache: F,
    ) -> (r: Option<MdlMap<'a, T>>)
        requires
            call_requires(
                mm_map_locked_pages_specify_cache,
                (
                    old(self)@.mdl,
                    access_mode,
                    mm_caching,
                    requested_address(request_addr),
                    bug_check_flag(bug_check_on_failure),
                    mm_page_priority.spec_value(),
                ),
            ),
        ensures
            exists|mapping: u64|
                {
                    &&& #[trigger] call_ensures(
                        mm_map_locked_pages_specify_cache,
                        (
                            old(self)@.mdl,
                            access_mode,
                            mm_caching,
                            requested_address(request_addr),
                            bug_check_flag(bug_check_on_failure),
                            mm_page_priority.spec_value(),
                        ),
                        mapping,
                    )
                    &&& mapping == 0 ==> r is None
                    &&& mapping != 0 ==> (r matches Some(m) && m.spec_mapped() == mapping && m.spec_mdl() == old(self)@.mdl)
                },
            final(self)@ == old(self)@,
    {
        let requested = match request_addr {
            Some(a) => a,
            None => 0,
        };
        let bug_check: u32 = if bug_check_on_failure { 1 } else { 0 };
        let mapping = mm_map_locked_pages_specify_cache(self.mdl, access_mode, mm_caching, requested, bug_check, mm_page_priority.value());
        if mapping == 0 {
            return None;
        }
        Some(MdlMap { mdl_ref: self, mapped: mapping, value: PhantomData })
    }

    /// Changes the protection of the mapped pages to `new_protect` through
    /// `mm_protect_mdl_system_address`; the status it returns is not used.
    pub fn protect<F: FnOnce(u64, u32) -> i32>(&self, new_protect: u32, mm_protect_mdl_system_address: F)
        requires
            call_requires(mm_protect_mdl_system_address, (self@.mdl, new_protect)),
        ensures
            exists|status: i32| #[trigger] call_ensures(mm_protect_mdl_system_address, (self@.mdl, new_protect), status),
    {
        let _ = mm_protect_mdl_system_address(self.mdl, new_protect);
    }

    /// Releases the MDL: pages still locked are first unlocked through
    /// `mm_unlock_pages`, then the MDL is freed through `io_free_mdl`.
    pub fn release<U: FnOnce(u64), F: FnOnce(u64)>(self, mm_unlock_pages: U, io_free_mdl: F)
        requires
            self@.locked ==> call_requires(mm_unlock_pages, (self@.mdl,)),
            !self@.locked ==> call_requires(io_free_mdl, (self@.mdl,)),
            self@.locked && call_ensures(mm_unlock_pages, (self@.mdl,), ()) ==> call_requires(io_free_mdl, (self@.mdl,)),
        ensures
            self@.locked ==> call_ensures(mm_unlock_pages, (self@.mdl,), ()),
            call_ensures(io_free_mdl, (self@.mdl,), ()),
    {
        let mut this = self;
        if this.locked {
            this.unlock(mm_unlock_pages);
        }
        io_free_mdl(this.mdl);
    }

    /// Address of the MDL.
    pub fn mdl(&self) -> (r: u64)
        ensures
            r == self@.mdl,
    {
        self.mdl
    }

    /// Whether the described pages are locked.
    pub fn is_locked(&self) -> (r: bool)
        ensures
            r == self@.locked,
    {
        self.locked
    }
}

} // verus!
