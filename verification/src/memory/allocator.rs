//! Kernel allocation primitives.
//!
//! Thin layers over the kernel allocators: the call itself is made by the
//! closure that the caller supplies (`ExAllocatePool`,
//! `MmAllocateContiguousMemorySpecifyCacheNode`); a null address means the
//! allocation failed.
use vstd::prelude::*;
use crate::sys::{POOL_TYPE, MEMORY_CACHING_TYPE, MM_ANY_NODE_OK};

verus! {

/// The allocation an allocator reported: `None` for a null address.
pub open spec fn allocation(addr: u64) -> Option<u64> {
    if addr == 0 {
        None
    } else {
        Some(addr)
    }
}

/// Allocates `size` bytes from the pool `pool_type` through
/// `ex_allocate_pool`; `None` when it returns a null address.
pub fn alloc_pool<F: FnOnce(POOL_TYPE, usize) -> u64>(pool_type: POOL_TYPE, size: usize, ex_allocate_pool: F) -> (r: Option<u64>)
    requires
        call_requires(ex_allocate_pool, (pool_type, size)),
    ensures
        exists|addr: u64| #[trigger] call_ensures(ex_allocate_pool, (pool_type, size), addr) && r == allocation(addr),
{
    let mem = ex_allocate_pool(pool_type, size);
    if mem == 0 {
        return None;
    }
    Some(mem)
}

/// Allocates room for one `T` from the pool `pool_type`.
pub fn alloc_pool_t<T, F: FnOnce(POOL_TYPE, usize) -> u64>(pool_type: POOL_TYPE, ex_allocate_pool: F) -> (r: Option<u64>)
    requires
        call_requires(ex_allocate_pool, (pool_type, core::mem::size_of::<T>())),
    ensures
        exists|addr: u64|
            #[trigger] call_ensures(ex_allocate_pool, (pool_type, core::mem::size_of::<T>()), addr) && r == allocation(addr),
{
    alloc_pool(pool_type, core::mem::size_of::<T>(), ex_allocate_pool)
}

/// Lowest acceptable physical address of a contiguous allocation.
pub const CONTIGUOUS_LOWEST: i64 = 0;

/// Highest acceptable physical address of a contiguous allocation.
pub const CONTIGUOUS_HIGHEST: i64 = 0x7fff_ffff_ffff_ffff;

/// Physical boundary a contiguous allocation must not cross (none).
pub const CONTIGUOUS_BOUNDARY: i64 = 0;

/// `allocate` answered `addr` for `size` bytes with caching `caching`, and
/// a successful allocation was zero-filled through `zero`.
pub open spec fn contiguous_allocated<F: FnOnce(usize, i64, i64, i64, MEMORY_CACHING_TYPE, u32) -> u64, Z: FnOnce(u64, usize)>(
    allocate: F,
    zero: Z,
    size: usize,
    caching: MEMORY_CACHING_TYPE,
    addr: u64,
) -> bool {
    &&& call_ensures(allocate, (size, CONTIGUOUS_LOWEST, CONTIGUOUS_HIGHEST, CONTIGUOUS_BOUNDARY, caching, MM_ANY_NODE_OK), addr)
    &&& addr != 0 ==> call_ensures(zero, (addr, size), ())
}

/// `addr` is a non-null allocation that `allocate` can answer.
pub open spec fn contiguous_answered<F: FnOnce(usize, i64, i64, i64, MEMORY_CACHING_TYPE, u32) -> u64>(allocate: F, addr: u64) -> bool {
    addr != 0 && exists|n: usize, l: i64, h: i64, b: i64, c: MEMORY_CACHING_TYPE, node: u32|
        #[trigger] call_ensures(allocate, (n, l, h, b, c, node), addr)
}

/// Allocates `size` bytes of physically contiguous memory with the caching
/// policy `caching`, anywhere in physical memory and on any node, then fills
/// them with zeros.
///
/// `allocate` performs `MmAllocateContiguousMemorySpecifyCacheNode` (size,
/// lowest, highest and boundary addresses, caching, node) and `zero` writes
/// zero bytes at an address. `None` when the allocation fails.
pub fn alloc_contiguous_memory<F: FnOnce(usize, i64, i64, i64, MEMORY_CACHING_TYPE, u32) -> u64, Z: FnOnce(u64, usize)>(
    size: usize,
    caching: MEMORY_CACHING_TYPE,
    allocate: F,
    zero: Z,
) -> (r: Option<u64>)
    requires
        call_requires(allocate, (size, CONTIGUOUS_LOWEST, CONTIGUOUS_HIGHEST, CONTIGUOUS_BOUNDARY, caching, MM_ANY_NODE_OK)),
        forall|a: u64, n: usize| contiguous_answered(allocate, a) ==> #[trigger] call_requires(zero, (a, n)),
    ensures
        exists|addr: u64| #[trigger] contiguous_allocated(allocate, zero, size, caching, addr) && r == allocation(addr),
{
    let mem = allocate(size, CONTIGUOUS_LOWEST, CONTIGUOUS_HIGHEST, CONTIGUOUS_BOUNDARY, caching, MM_ANY_NODE_OK);
    if mem == 0 {
        assert(contiguous_allocated(allocate, zero, size, caching, mem));
        return None;
    }
    zero(mem, size);
    assert(contiguous_allocated(allocate, zero, size, caching, mem));
    Some(mem)
}

/// Allocates zero-filled contiguous memory for one `T`.
pub fn alloc_contiguous_memory_t<T, F: FnOnce(usize, i64, i64, i64, MEMORY_CACHING_TYPE, u32) -> u64, Z: FnOnce(u64, usize)>(
    caching: MEMORY_CACHING_TYPE,
    allocate: F,
    zero: Z,
) -> (r: Option<u64>)
    requires
        call_requires(allocate, (core::mem::size_of::<T>(), CONTIGUOUS_LOWEST, CONTIGUOUS_HIGHEST, CONTIGUOUS_BOUNDARY, caching, MM_ANY_NODE_OK)),
        forall|a: u64, n: usize| contiguous_answered(allocate, a) ==> #[trigger] call_requires(zero, (a, n)),
    ensures
        exists|addr: u64|
            #[trigger] contiguous_allocated(allocate, zero, core::mem::size_of::<T>(), caching, addr) && r == allocation(addr),
{
    alloc_contiguous_memory(core::mem::size_of::<T>(), caching, allocate, zero)
}

} // verus!
