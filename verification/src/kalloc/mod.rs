//! Kernel memory allocation.
//!
//! [`KernelAllocator`] is a global allocator backed by the `NonPagedPool`:
//! each block is requested from the pool with the layout's size, the
//! alignment being left to the kernel allocator, and is handed back to the
//! pool when released. [`pool`] and [`contiguous`] provide ownership handles
//! over pool and physically contiguous allocations.
use vstd::prelude::*;
use crate::sys::POOL_TYPE;

pub mod contiguous;
pub mod pool;

verus! {

/// The global allocator backed by the kernel `NonPagedPool`.
pub struct KernelAllocator;

impl KernelAllocator {
    /// Allocates a block of `size` bytes: `ex_allocate_pool` (`ExAllocatePool`)
    /// is called once, with the `NonPagedPool` and `size`, and its answer is
    /// the block (null when the allocation failed). The layout's alignment is
    /// not passed on; the kernel allocator provides its own.
    pub fn allocate<F: FnOnce(POOL_TYPE, usize) -> u64>(&self, size: usize, ex_allocate_pool: F) -> (r: u64)
        requires
            call_requires(ex_allocate_pool, (POOL_TYPE::NonPagedPool, size)),
        ensures
            call_ensures(ex_allocate_pool, (POOL_TYPE::NonPagedPool, size), r),
    {
        ex_allocate_pool(POOL_TYPE::NonPagedPool, size)
    }

    /// Releases a block handed out by [`KernelAllocator::allocate`] through
    /// `ex_free_pool` (`ExFreePool`), which needs only its address. Nothing
    /// happens for a null block.
    pub fn dealloc<F: FnOnce(u64)>(&self, block: u64, ex_free_pool: F)
        requires
            block != 0 ==> call_requires(ex_free_pool, (block,)),
        ensures
            block != 0 ==> call_ensures(ex_free_pool, (block,), ()),
    {
        if block == 0 {
            return;
        }
        ex_free_pool(block);
    }
}

} // verus!
