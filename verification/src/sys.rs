//! Windows kernel definitions used by the library: pool and caching types,
//! lock operations and page priorities.
use vstd::prelude::*;

verus! {

/// `POOL_TYPE`: the kernel pool an allocation comes from.
#[derive(Debug, Clone, Copy, PartialEq, Eq, Structural)]
pub enum POOL_TYPE {
    NonPagedPool,
    NonPagedPoolExecute,
    PagedPool,
    NonPagedPoolMustSucceed,
    NonPagedPoolCacheAligned,
    PagedPoolCacheAligned,
    NonPagedPoolNx,
}

/// `MEMORY_CACHING_TYPE`: the caching policy of a memory range.
#[derive(Debug, Clone, Copy, PartialEq, Eq, Structural)]
pub enum MEMORY_CACHING_TYPE {
    MmNonCached,
    MmCached,
    MmWriteCombined,
    MmHardwareCoherentCached,
    MmNonCachedUnordered,
    MmUSWCCached,
    MmMaximumCacheType,
    MmNotMapped,
}

/// `LOCK_OPERATION`: the access for which pages are probed and locked.
#[derive(Debug, Clone, Copy, PartialEq, Eq, Structural)]
pub enum LOCK_OPERATION {
    IoReadAccess,
    IoWriteAccess,
    IoModifyAccess,
}

/// `MM_PAGE_PRIORITY`: how important a mapping request is.
#[derive(Debug, Clone, Copy, PartialEq, Eq, Structural)]
pub enum MM_PAGE_PRIORITY {
    LowPagePriority,
    NormalPagePriority,
    HighPagePriority,
}

impl MM_PAGE_PRIORITY {
    pub open spec fn spec_value(self) -> u32 {
        match self {
            MM_PAGE_PRIORITY::LowPagePriority => 0,
            MM_PAGE_PRIORITY::NormalPagePriority => 16,
            MM_PAGE_PRIORITY::HighPagePriority => 32,
        }
    }

    /// The numeric value the kernel expects.
    pub fn value(&self) -> (r: u32)
        ensures
            r == self.spec_value(),
    {
        match self {
            MM_PAGE_PRIORITY::LowPagePriority => 0,
            MM_PAGE_PRIORITY::NormalPagePriority => 16,
            MM_PAGE_PRIORITY::HighPagePriority => 32,
        }
    }
}

/// `KPROCESSOR_MODE`: `KernelMode` (0) or `UserMode` (1).
pub type KPROCESSOR_MODE = i8;

/// `PAGE_READWRITE` page protection.
pub const PAGE_READWRITE: u32 = 0x04;

/// `MM_ANY_NODE_OK`: any NUMA node may back an allocation.
pub const MM_ANY_NODE_OK: u32 = 0x8000_0000;

} // verus!
