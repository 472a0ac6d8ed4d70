//! Writing read-only kernel memory through an MDL, and copying memory to and
//! from other processes.
//!
//! The kernel routines (`IoAllocateMdl`, `MmProbeAndLockPages`,
//! `MmMapLockedPagesSpecifyCache`, `MmProtectMdlSystemAddress`,
//! `MmUnmapLockedPages`, `MmUnlockPages`, `IoFreeMdl`,
//! `PsLookupProcessByProcessId`, `MmCopyVirtualMemory`,
//! `ObfDereferenceObject`) and the byte copy itself are called through
//! closures that the caller supplies. Each closure may be called only once
//! the step before it has returned (its `call_requires` is demanded only
//! there), which fixes the order of the calls; the contracts state that every
//! resource taken is given back on every path, and the status reported.
use vstd::prelude::*;
use crate::{NTSTATUS, STATUS_BUFFER_TOO_SMALL, STATUS_UNSUCCESSFUL};
use crate::memory::mdl::Mdl;
use crate::sys::{KPROCESSOR_MODE, LOCK_OPERATION, MEMORY_CACHING_TYPE, MM_PAGE_PRIORITY, PAGE_READWRITE};

verus! {

/// What a copy of `requested` bytes that returned `status` after copying
/// `copied` bytes is reported as: the failing status, `STATUS_UNSUCCESSFUL`
/// when nothing was copied, `STATUS_BUFFER_TOO_SMALL` when only a part was.
pub open spec fn copy_outcome(status: NTSTATUS, copied: u64, requested: usize) -> Result<(), NTSTATUS> {
    if status < 0 {
        Err(status)
    } else if copied == 0 {
        Err(STATUS_UNSUCCESSFUL)
    } else if copied != requested as u64 {
        Err(STATUS_BUFFER_TOO_SMALL)
    } else {
        Ok(())
    }
}

/// Reports a copy of `requested` bytes that returned `status` after copying
/// `copied` bytes.
pub fn check_copy(status: NTSTATUS, copied: u64, requested: usize) -> (r: Result<(), NTSTATUS>)
    ensures
        r == copy_outcome(status, copied, requested),
{
    if status < 0 {
        return Err(status);
    }
    if copied == 0 {
        return Err(STATUS_UNSUCCESSFUL);
    }
    if copied != requested as u64 {
        return Err(STATUS_BUFFER_TOO_SMALL);
    }
    Ok(())
}

/// What a copy between the current process and process `pid` reports:
/// `lookup` found the process (or failed with its status), `copy` moved the
/// bytes, and the process reference was given back through `dereference`.
pub open spec fn process_copy_done<L: FnOnce(u64) -> (NTSTATUS, u64), C: FnOnce(u64) -> (NTSTATUS, u64), D: FnOnce(u64)>(
    r: Result<(), NTSTATUS>,
    pid: u64,
    len: usize,
    lookup: L,
    copy: C,
    dereference: D,
) -> bool {
    exists|found: (NTSTATUS, u64)|
        {
            &&& #[trigger] call_ensures(lookup, (pid,), found)
            &&& if found.0 < 0 {
                r == Err::<(), NTSTATUS>(found.0)
            } else {
                exists|copied: (NTSTATUS, u64)|
                    {
                        &&& #[trigger] call_ensures(copy, (found.1,), copied)
                        &&& call_ensures(dereference, (found.1,), ())
                        &&& r == copy_outcome(copied.0, copied.1, len)
                    }
            }
        }
}

/// The calls a copy with process `pid` may make: the lookup; the copy only
/// on a process that the lookup found; the dereference only once that copy
/// returned.
pub open spec fn process_copy_allowed<L: FnOnce(u64) -> (NTSTATUS, u64), C: FnOnce(u64) -> (NTSTATUS, u64), D: FnOnce(u64)>(
    pid: u64,
    lookup: L,
    copy: C,
    dereference: D,
) -> bool {
    &&& call_requires(lookup, (pid,))
    &&& forall|found: (NTSTATUS, u64)|
        #[trigger] call_ensures(lookup, (pid,), found) && found.0 >= 0 ==> {
            &&& call_requires(copy, (found.1,))
            &&& forall|copied: (NTSTATUS, u64)|
                #[trigger] call_ensures(copy, (found.1,), copied) ==> call_requires(dereference, (found.1,))
        }
}

/// Copies `len` bytes between the current process and process `pid`.
///
/// `lookup` is `PsLookupProcessByProcessId` (status and process object);
/// `copy` is `MmCopyVirtualMemory` on that process (status and number of
/// bytes copied); `dereference` is `ObfDereferenceObject`, called whenever
/// the lookup succeeded, before the result is examined.
fn copy_with_process<L: FnOnce(u64) -> (NTSTATUS, u64), C: FnOnce(u64) -> (NTSTATUS, u64), D: FnOnce(u64)>(
    pid: u64,
    len: usize,
    lookup: L,
    copy: C,
    dereference: D,
) -> (r: Result<(), NTSTATUS>)
    requires
        process_copy_allowed(pid, lookup, copy, dereference),
    ensures
        process_copy_done(r, pid, len, lookup, copy, dereference),
{
    let (status, process) = lookup(pid);
    if status < 0 {
        return Err(status);
    }
    let (status, copied) = copy(process);
    dereference(process);
    check_copy(status, copied, len)
}

/// Reads `len` bytes of the memory of process `pid` into the caller's
/// buffer.
///
/// `lookup` finds the process (`PsLookupProcessByProcessId`), `copy` copies
/// from it into the buffer (`MmCopyVirtualMemory`), and the process reference
/// is released through `dereference`. The error is the failing status,
/// `STATUS_UNSUCCESSFUL` when no byte was copied, `STATUS_BUFFER_TOO_SMALL`
/// when only a part was.
pub fn mm_read_virtual_memory_from_pid<L: FnOnce(u64) -> (NTSTATUS, u64), C: FnOnce(u64) -> (NTSTATUS, u64), D: FnOnce(u64)>(
    pid: u64,
    len: usize,
    lookup: L,
    copy: C,
    dereference: D,
) -> (r: Result<(), NTSTATUS>)
    requires
        process_copy_allowed(pid, lookup, copy, dereference),
    ensures
        process_copy_done(r, pid, len, lookup, copy, dereference),
{
    copy_with_process(pid, len, lookup, copy, dereference)
}

/// Writes `len` bytes of the caller's buffer into the memory of process
/// `pid`, as [`mm_read_virtual_memory_from_pid`] reads them, with `copy`
/// copying into the process.
pub fn mm_write_virtual_memory_from_pid<L: FnOnce(u64) -> (NTSTATUS, u64), C: FnOnce(u64) -> (NTSTATUS, u64), D: FnOnce(u64)>(
    pid: u64,
    len: usize,
    lookup: L,
    copy: C,
    dereference: D,
) -> (r: Result<(), NTSTATUS>)
    requires
        process_copy_allowed(pid, lookup, copy, dereference),
    ensures
        process_copy_done(r, pid, len, lookup, copy, dereference),
{
    copy_with_process(pid, len, lookup, copy, dereference)
}

/// Whether a write of `len` bytes at `dst` took every step and gave back
/// every resource: the MDL allocated for the range (`mdl`, nonzero) had its
/// pages locked for writing, and was unlocked and freed at the end; when the
/// mapping (`mapping`) was made, it was made writable, received the bytes and
/// was unmapped.
pub open spec fn mdl_write_done<
    A: FnOnce(u64, u32) -> u64,
    P: FnOnce(u64, KPROCESSOR_MODE, LOCK_OPERATION),
    M: FnOnce(u64, KPROCESSOR_MODE, MEMORY_CACHING_TYPE, u64, u32, u32) -> u64,
    R: FnOnce(u64, u32) -> i32,
    W: FnOnce(u64),
    X: FnOnce(u64, u64),
    U: FnOnce(u64),
    F: FnOnce(u64),
>(
    r: bool,
    dst: u64,
    len: usize,
    io_allocate_mdl: A,
    mm_probe_and_lock_pages: P,
    mm_map_locked_pages_specify_cache: M,
    mm_protect_mdl_system_address: R,
    copy: W,
    mm_unmap_locked_pages: X,
    mm_unlock_pages: U,
    io_free_mdl: F,
) -> bool {
    exists|mdl: u64|
        {
            &&& #[trigger] call_ensures(io_allocate_mdl, (dst, len as u32), mdl)
            &&& mdl == 0 ==> !r
            &&& mdl != 0 ==> {
                &&& call_ensures(mm_probe_and_lock_pages, (mdl, 0i8, LOCK_OPERATION::IoWriteAccess), ())
                &&& call_ensures(mm_unlock_pages, (mdl,), ())
                &&& call_ensures(io_free_mdl, (mdl,), ())
                &&& exists|mapping: u64|
                    {
                        &&& #[trigger] call_ensures(
                            mm_map_locked_pages_specify_cache,
                            (mdl, 0i8, MEMORY_CACHING_TYPE::MmNonCached, 0u64, 0u32, MM_PAGE_PRIORITY::NormalPagePriority.spec_value()),
                            mapping,
                        )
                        &&& mapping == 0 ==> !r
                        &&& mapping != 0 ==> {
                            &&& r
                            &&& exists|status: i32| #[trigger] call_ensures(mm_protect_mdl_system_address, (mdl, PAGE_READWRITE), status)
                            &&& call_ensures(copy, (mapping,), ())
                            &&& call_ensures(mm_unmap_locked_pages, (mapping, mdl), ())
                        }
                    }
            }
        }
}

/// The pages of `mdl` may be unlocked, and once unlocked the MDL freed.
pub open spec fn release_allowed<U: FnOnce(u64), F: FnOnce(u64)>(mdl: u64, mm_unlock_pages: U, io_free_mdl: F) -> bool {
    &&& call_requires(mm_unlock_pages, (mdl,))
    &&& call_ensures(mm_unlock_pages, (mdl,), ()) ==> call_requires(io_free_mdl, (mdl,))
}

/// The calls a write of `len` bytes at `dst` may make, each only once the
/// step before it has returned: allocate the MDL; lock its pages for
/// writing; map them without caching; then either (no mapping) unlock and
/// free, or make the mapping read-write, copy the bytes through it, unmap
/// it, unlock and free.
pub open spec fn mdl_write_allowed<
    A: FnOnce(u64, u32) -> u64,
    P: FnOnce(u64, KPROCESSOR_MODE, LOCK_OPERATION),
    M: FnOnce(u64, KPROCESSOR_MODE, MEMORY_CACHING_TYPE, u64, u32, u32) -> u64,
    R: FnOnce(u64, u32) -> i32,
    W: FnOnce(u64),
    X: FnOnce(u64, u64),
    U: FnOnce(u64),
    F: FnOnce(u64),
>(
    dst: u64,
    len: usize,
    io_allocate_mdl: A,
    mm_probe_and_lock_pages: P,
    mm_map_locked_pages_specify_cache: M,
    mm_protect_mdl_system_address: R,
    copy: W,
    mm_unmap_locked_pages: X,
    mm_unlock_pages: U,
    io_free_mdl: F,
) -> bool {
    &&& call_requires(io_allocate_mdl, (dst, len as u32))
    &&& forall|mdl: u64|
        #[trigger] call_ensures(io_allocate_mdl, (dst, len as u32), mdl) && mdl != 0 ==> {
            &&& call_requires(mm_probe_and_lock_pages, (mdl, 0i8, LOCK_OPERATION::IoWriteAccess))
            &&& call_ensures(mm_probe_and_lock_pages, (mdl, 0i8, LOCK_OPERATION::IoWriteAccess), ()) ==> {
                &&& call_requires(
                    mm_map_locked_pages_specify_cache,
                    (mdl, 0i8, MEMORY_CACHING_TYPE::MmNonCached, 0u64, 0u32, MM_PAGE_PRIORITY::NormalPagePriority.spec_value()),
                )
                &&& forall|mapping: u64|
                    #[trigger] call_ensures(
                        mm_map_locked_pages_specify_cache,
                        (mdl, 0i8, MEMORY_CACHING_TYPE::MmNonCached, 0u64, 0u32, MM_PAGE_PRIORITY::NormalPagePriority.spec_value()),
                        mapping,
                    ) ==> {
                        &&& mapping == 0 ==> release_allowed(mdl, mm_unlock_pages, io_free_mdl)
                        &&& mapping != 0 ==> {
                            &&& call_requires(mm_protect_mdl_system_address, (mdl, PAGE_READWRITE))
                            &&& forall|status: i32|
                                #[trigger] call_ensures(mm_protect_mdl_system_address, (mdl, PAGE_READWRITE), status) ==> {
                                    &&& call_requires(copy, (mapping,))
                                    &&& call_ensures(copy, (mapping,), ()) ==> {
                                        &&& call_requires(mm_unmap_locked_pages, (mapping, mdl))
                                        &&& call_ensures(mm_unmap_locked_pages, (mapping, mdl), ())
                                            ==> release_allowed(mdl, mm_unlock_pages, io_free_mdl)
                                    }
                                }
                        }
                    }
            }
        }
}

/// Writes `len` bytes into a read-only range at `dst`.
///
/// An MDL describing the range is allocated, its pages are locked for
/// writing, mapped into system space without caching, the mapping is made
/// read-write and `copy` writes the bytes through it. The mapping is then
/// unmapped, the pages unlocked and the MDL freed, also when a step fails.
/// `false` when `dst` is null, `len` is zero, or the MDL or the mapping could
/// not be made; `true` once the bytes were written.
pub fn write_to_read_only_memory<
    A: FnOnce(u64, u32) -> u64,
    P: FnOnce(u64, KPROCESSOR_MODE, LOCK_OPERATION),
    M: FnOnce(u64, KPROCESSOR_MODE, MEMORY_CACHING_TYPE, u64, u32, u32) -> u64,
    R: FnOnce(u64, u32) -> i32,
    W: FnOnce(u64),
    X: FnOnce(u64, u64),
    U: FnOnce(u64),
    F: FnOnce(u64),
>(
    dst: u64,
    len: usize,
    io_allocate_mdl: A,
    mm_probe_and_lock_pages: P,
    mm_map_locked_pages_specify_cache: M,
    mm_protect_mdl_system_address: R,
    copy: W,
    mm_unmap_locked_pages: X,
    mm_unlock_pages: U,
    io_free_mdl: F,
) -> (r: bool)
    requires
        dst != 0 && len != 0 ==> mdl_write_allowed(
            dst,
            len,
            io_allocate_mdl,
            mm_probe_and_lock_pages,
            mm_map_locked_pages_specify_cache,
            mm_protect_mdl_system_address,
            copy,
            mm_unmap_locked_pages,
            mm_unlock_pages,
            io_free_mdl,
        ),
    ensures
        dst == 0 || len == 0 ==> !r,
        dst != 0 && len != 0 ==> mdl_write_done(
            r,
            dst,
            len,
            io_allocate_mdl,
            mm_probe_and_lock_pages,
            mm_map_locked_pages_specify_cache,
            mm_protect_mdl_system_address,
            copy,
            mm_unmap_locked_pages,
            mm_unlock_pages,
            io_free_mdl,
        ),
{
    if dst == 0 || len == 0 {
        return false;
    }
    let mut mdl = match Mdl::new(dst, len, io_allocate_mdl) {
        Some(m) => m,
        None => return false,
    };
    mdl.lock(0, LOCK_OPERATION::IoWriteAccess, mm_probe_and_lock_pages);
    let ghost handle = mdl@;
    let mapping = mdl.map_locked::<u8, M>(
        0,
        MEMORY_CACHING_TYPE::MmNonCached,
        None,
        false,
        MM_PAGE_PRIORITY::NormalPagePriority,
        mm_map_locked_pages_specify_cache,
    );
    match mapping {
        None => {
            mdl.release(mm_unlock_pages, io_free_mdl);
            false
        },
        Some(mut map) => {
            map.protect(PAGE_READWRITE, mm_protect_mdl_system_address);
            let at = map.as_mut_ptr();
            copy(at);
            map.unmap(mm_unmap_locked_pages);
            assert(mdl@ == handle);
            mdl.release(mm_unlock_pages, io_free_mdl);
            true
        },
    }
}

} // verus!
