//! Ownership handles over physically contiguous kernel allocations.
//!
//! Contiguous allocations are backed by physically adjacent pages, as DMA,
//! hardware communication or page-table construction need.
//! [`ContiguousMemory<T>`] owns one `T` and [`ContiguousMemorySlice<T>`] owns
//! `len` consecutive `T`s; each records the caching policy that was used, so
//! that the same policy is passed when the memory is freed.
//!
//! The allocation (`MmAllocateContiguousMemorySpecifyCacheNode`), zero
//! filling and writes into the new memory are performed by closures that the
//! caller supplies. The default caching policy is `MmCached`.
use vstd::prelude::*;
use core::marker::PhantomData;
use core::mem::MaybeUninit;
use crate::sys::MEMORY_CACHING_TYPE;
use crate::memory::allocator::{alloc_contiguous_memory, alloc_contiguous_memory_t, allocation, contiguous_allocated, contiguous_answered};
use crate::kalloc::pool::{fill_elements, filled, owns_allocation};

verus! {

/// Owns a single physically contiguous allocation holding one `T`.
pub struct ContiguousMemory<T> {
    mem: u64,
    mm_caching: MEMORY_CACHING_TYPE,
    value: PhantomData<T>,
}

impl<T> View for ContiguousMemory<T> {
    /// The address of the value.
    type V = u64;

    closed spec fn view(&self) -> u64 {
        self.mem
    }
}

impl<T> ContiguousMemory<T> {
    pub closed spec fn spec_caching(&self) -> MEMORY_CACHING_TYPE {
        self.mm_caching
    }

    /// What a constructor returns once the allocation answered `addr`:
    /// nothing for a null address, otherwise the handle of that address with
    /// caching `caching`.
    pub open spec fn created<U>(r: Option<ContiguousMemory<U>>, addr: u64, caching: MEMORY_CACHING_TYPE) -> bool {
        match allocation(addr) {
            None => r is None,
            Some(a) => r matches Some(h) && h@ == a && h.spec_caching() == caching,
        }
    }

    /// Allocates an uninitialized, zero-filled value with `MmCached` caching.
    pub fn new_uninit_zeroed<F: FnOnce(usize, i64, i64, i64, MEMORY_CACHING_TYPE, u32) -> u64, Z: Fn(u64, usize)>(
        allocate: F,
        zero: &Z,
    ) -> (r: Option<ContiguousMemory<MaybeUninit<T>>>)
        requires
            forall|n: usize, l: i64, h: i64, b: i64, c: MEMORY_CACHING_TYPE, node: u32| call_requires(allocate, (n, l, h, b, c, node)),
            forall|a: u64, n: usize| contiguous_answered(allocate, a) ==> #[trigger] call_requires(*zero, (a, n)),
        ensures
            exists|addr: u64|
                #[trigger] contiguous_allocated(allocate, zero, core::mem::size_of::<MaybeUninit<T>>(), MEMORY_CACHING_TYPE::MmCached, addr)
                    && Self::created(r, addr, MEMORY_CACHING_TYPE::MmCached),
    {
        Self::new_uninit_with_caching_type(MEMORY_CACHING_TYPE::MmCached, allocate, zero)
    }

    /// Allocates an uninitialized value with caching `mm_caching` and fills
    /// its bytes with zeros.
    pub fn new_uninit_zeroed_with_caching_type<F: FnOnce(usize, i64, i64, i64, MEMORY_CACHING_TYPE, u32) -> u64, Z: Fn(u64, usize)>(
        mm_caching: MEMORY_CACHING_TYPE,
        allocate: F,
        zero: &Z,
    ) -> (r: Option<ContiguousMemory<MaybeUninit<T>>>)
        requires
            forall|n: usize, l: i64, h: i64, b: i64, c: MEMORY_CACHING_TYPE, node: u32| call_requires(allocate, (n, l, h, b, c, node)),
            forall|a: u64, n: usize| contiguous_answered(allocate, a) ==> #[trigger] call_requires(*zero, (a, n)),
        ensures
            exists|addr: u64|
                #[trigger] contiguous_allocated(allocate, zero, core::mem::size_of::<MaybeUninit<T>>(), mm_caching, addr)
                    && Self::created(r, addr, mm_caching),
    {
        let mem = match alloc_contiguous_memory_t::<MaybeUninit<T>, F, &Z>(mm_caching, allocate, zero) {
            Some(m) => m,
            None => return None,
        };
        zero(mem, core::mem::size_of::<MaybeUninit<T>>());
        Some(ContiguousMemory { mem, mm_caching, value: PhantomData })
    }

    /// Allocates an uninitialized value with `MmCached` caching.
    pub fn new_uninit<F: FnOnce(usize, i64, i64, i64, MEMORY_CACHING_TYPE, u32) -> u64, Z: Fn(u64, usize)>(
        allocate: F,
        zero: &Z,
    ) -> (r: Option<ContiguousMemory<MaybeUninit<T>>>)
        requires
            forall|n: usize, l: i64, h: i64, b: i64, c: MEMORY_CACHING_TYPE, node: u32| call_requires(allocate, (n, l, h, b, c, node)),
            forall|a: u64, n: usize| contiguous_answered(allocate, a) ==> #[trigger] call_requires(*zero, (a, n)),
        ensures
            exists|addr: u64|
                #[trigger] contiguous_allocated(allocate, zero, core::mem::size_of::<MaybeUninit<T>>(), MEMORY_CACHING_TYPE::MmCached, addr)
                    && Self::created(r, addr, MEMORY_CACHING_TYPE::MmCached),
    {
        Self::new_uninit_with_caching_type(MEMORY_CACHING_TYPE::MmCached, allocate, zero)
    }

    /// Allocates an uninitialized value with caching `mm_chaching`; its bytes
    /// are zero.
    pub fn new_uninit_with_caching_type<F: FnOnce(usize, i64, i64, i64, MEMORY_CACHING_TYPE, u32) -> u64, Z: Fn(u64, usize)>(
        mm_chaching: MEMORY_CACHING_TYPE,
        allocate: F,
        zero: &Z,
    ) -> (r: Option<ContiguousMemory<MaybeUninit<T>>>)
        requires
            forall|n: usize, l: i64, h: i64, b: i64, c: MEMORY_CACHING_TYPE, node: u32| call_requires(allocate, (n, l, h, b, c, node)),
            forall|a: u64, n: usize| contiguous_answered(allocate, a) ==> #[trigger] call_requires(*zero, (a, n)),
        ensures
            exists|addr: u64|
                #[trigger] contiguous_allocated(allocate, zero, core::mem::size_of::<MaybeUninit<T>>(), mm_chaching, addr)
                    && Self::created(r, addr, mm_chaching),
    {
        Self::new_uninit_zeroed_with_caching_type(mm_chaching, allocate, zero)
    }

    /// Allocates a value with `MmCached` caching and moves `val` into it
    /// through `write`.
    pub fn new<F: FnOnce(usize, i64, i64, i64, MEMORY_CACHING_TYPE, u32) -> u64, Z: FnOnce(u64, usize), W: FnOnce(u64, T)>(
        val: T,
        allocate: F,
        zero: Z,
        write: W,
    ) -> (r: Option<ContiguousMemory<T>>)
        requires
            forall|n: usize, l: i64, h: i64, b: i64, c: MEMORY_CACHING_TYPE, node: u32| call_requires(allocate, (n, l, h, b, c, node)),
            forall|a: u64, n: usize| contiguous_answered(allocate, a) ==> #[trigger] call_requires(zero, (a, n)),
            forall|a: u64, v: T| contiguous_answered(allocate, a) ==> #[trigger] call_requires(write, (a, v)),
        ensures
            exists|addr: u64|
                {
                    &&& #[trigger] contiguous_allocated(allocate, zero, core::mem::size_of::<T>(), MEMORY_CACHING_TYPE::MmCached, addr)
                    &&& Self::created(r, addr, MEMORY_CACHING_TYPE::MmCached)
                    &&& addr != 0 ==> call_ensures(write, (addr, val), ())
                },
    {
        Self::new_with_caching_type(val, MEMORY_CACHING_TYPE::MmCached, allocate, zero, write)
    }

    /// Allocates a value with caching `cache_type` and moves `val` into it
    /// through `write`; `None` (dropping `val`) when the allocation fails.
    pub fn new_with_caching_type<F: FnOnce(usize, i64, i64, i64, MEMORY_CACHING_TYPE, u32) -> u64, Z: FnOnce(u64, usize), W: FnOnce(u64, T)>(
        val: T,
        cache_type: MEMORY_CACHING_TYPE,
        allocate: F,
        zero: Z,
        write: W,
    ) -> (r: Option<ContiguousMemory<T>>)
        requires
            forall|n: usize, l: i64, h: i64, b: i64, c: MEMORY_CACHING_TYPE, node: u32| call_requires(allocate, (n, l, h, b, c, node)),
            forall|a: u64, n: usize| contiguous_answered(allocate, a) ==> #[trigger] call_requires(zero, (a, n)),
            forall|a: u64, v: T| contiguous_answered(allocate, a) ==> #[trigger] call_requires(write, (a, v)),
        ensures
            exists|addr: u64|
                {
                    &&& #[trigger] contiguous_allocated(allocate, zero, core::mem::size_of::<T>(), cache_type, addr)
                    &&& Self::created(r, addr, cache_type)
                    &&& addr != 0 ==> call_ensures(write, (addr, val), ())
                },
    {
        let size = core::mem::size_of::<T>();
        assert(size == core::mem::size_of::<T>());
        let mem = match alloc_contiguous_memory(size, cache_type, allocate, zero) {
            Some(m) => m,
            None => return None,
        };
        write(mem, val);
        Some(ContiguousMemory { mem, mm_caching: cache_type, value: PhantomData })
    }

    /// Allocates a value with `MmCached` caching and lets `initializer`
    /// initialize it in place (it is given the address of the value).
    pub fn new_with_initializer<I: FnOnce(u64), F: FnOnce(usize, i64, i64, i64, MEMORY_CACHING_TYPE, u32) -> u64, Z: Fn(u64, usize)>(
        initializer: I,
        allocate: F,
        zero: &Z,
    ) -> (r: Option<ContiguousMemory<T>>)
        requires
            forall|a: u64| contiguous_answered(allocate, a) ==> #[trigger] call_requires(initializer, (a,)),
            forall|n: usize, l: i64, h: i64, b: i64, c: MEMORY_CACHING_TYPE, node: u32| call_requires(allocate, (n, l, h, b, c, node)),
            forall|a: u64, n: usize| contiguous_answered(allocate, a) ==> #[trigger] call_requires(*zero, (a, n)),
        ensures
            exists|addr: u64|
                {
                    &&& #[trigger] contiguous_allocated(allocate, zero, core::mem::size_of::<MaybeUninit<T>>(), MEMORY_CACHING_TYPE::MmCached, addr)
                    &&& Self::created(r, addr, MEMORY_CACHING_TYPE::MmCached)
                    &&& addr != 0 ==> call_ensures(initializer, (addr,), ())
                },
    {
        Self::new_with_initializer_and_caching_type(MEMORY_CACHING_TYPE::MmCached, initializer, allocate, zero)
    }

    /// Allocates a value with caching `mm_caching` and lets `initializer`
    /// initialize it in place.
    pub fn new_with_initializer_and_caching_type<I: FnOnce(u64), F: FnOnce(usize, i64, i64, i64, MEMORY_CACHING_TYPE, u32) -> u64, Z: Fn(u64, usize)>(
        mm_caching: MEMORY_CACHING_TYPE,
        initializer: I,
        allocate: F,
        zero: &Z,
    ) -> (r: Option<ContiguousMemory<T>>)
        requires
            forall|a: u64| contiguous_answered(allocate, a) ==> #[trigger] call_requires(initializer, (a,)),
            forall|n: usize, l: i64, h: i64, b: i64, c: MEMORY_CACHING_TYPE, node: u32| call_requires(allocate, (n, l, h, b, c, node)),
            forall|a: u64, n: usize| contiguous_answered(allocate, a) ==> #[trigger] call_requires(*zero, (a, n)),
        ensures
            exists|addr: u64|
                {
                    &&& #[trigger] contiguous_allocated(allocate, zero, core::mem::size_of::<MaybeUninit<T>>(), mm_caching, addr)
                    &&& Self::created(r, addr, mm_caching)
                    &&& addr != 0 ==> call_ensures(initializer, (addr,), ())
                },
    {
        let self_uninit = match Self::new_uninit_with_caching_type(mm_caching, allocate, zero) {
            Some(h) => h,
            None => return None,
        };
        initializer(self_uninit.mem);
        Some(self_uninit.assume_init())
    }

    /// Allocates a value with `MmCached` caching whose bytes are all zero.
    pub fn new_zeroed<F: FnOnce(usize, i64, i64, i64, MEMORY_CACHING_TYPE, u32) -> u64, Z: Fn(u64, usize)>(
        allocate: F,
        zero: &Z,
    ) -> (r: Option<ContiguousMemory<T>>)
        requires
            forall|n: usize, l: i64, h: i64, b: i64, c: MEMORY_CACHING_TYPE, node: u32| call_requires(allocate, (n, l, h, b, c, node)),
            forall|a: u64, n: usize| contiguous_answered(allocate, a) ==> #[trigger] call_requires(*zero, (a, n)),
        ensures
            exists|addr: u64|
                #[trigger] contiguous_allocated(allocate, zero, core::mem::size_of::<MaybeUninit<T>>(), MEMORY_CACHING_TYPE::MmCached, addr)
                    && Self::created(r, addr, MEMORY_CACHING_TYPE::MmCached),
    {
        Self::new_zeroed_with_caching_type(MEMORY_CACHING_TYPE::MmCached, allocate, zero)
    }

    /// Allocates a value with caching `mm_caching` whose bytes are all zero.
    pub fn new_zeroed_with_caching_type<F: FnOnce(usize, i64, i64, i64, MEMORY_CACHING_TYPE, u32) -> u64, Z: Fn(u64, usize)>(
        mm_caching: MEMORY_CACHING_TYPE,
        allocate: F,
        zero: &Z,
    ) -> (r: Option<ContiguousMemory<T>>)
        requires
            forall|n: usize, l: i64, h: i64, b: i64, c: MEMORY_CACHING_TYPE, node: u32| call_requires(allocate, (n, l, h, b, c, node)),
            forall|a: u64, n: usize| contiguous_answered(allocate, a) ==> #[trigger] call_requires(*zero, (a, n)),
        ensures
            exists|addr: u64|
                #[trigger] contiguous_allocated(allocate, zero, core::mem::size_of::<MaybeUninit<T>>(), mm_caching, addr)
                    && Self::created(r, addr, mm_caching),
    {
        let self_uninit = match Self::new_uninit_zeroed_with_caching_type(mm_caching, allocate, zero) {
            Some(h) => h,
            None => return None,
        };
        Some(self_uninit.assume_init())
    }

    /// Address of the value.
    pub fn as_ptr(&self) -> (r: u64)
        ensures
            r == self@,
    {
        self.mem
    }

    /// Address of the value, for writing.
    pub fn as_mut_ptr(&mut self) -> (r: u64)
        ensures
            r == old(self)@,
            *final(self) == *old(self),
    {
        self.mem
    }

    /// The caching policy of the allocation.
    pub fn caching_type(&self) -> (r: MEMORY_CACHING_TYPE)
        ensures
            r == self.spec_caching(),
    {
        self.mm_caching
    }
}

impl<T> ContiguousMemory<MaybeUninit<T>> {
    /// Treats the allocation as holding an initialized `T`; the caller is
    /// responsible for having initialized it.
    pub fn assume_init(self) -> (r: ContiguousMemory<T>)
        ensures
            r@ == self@,
            r.spec_caching() == self.spec_caching(),
    {
        ContiguousMemory { mem: self.mem, mm_caching: self.mm_caching, value: PhantomData }
    }
}

/// Owns `len` consecutive values of type `T` in one physically contiguous
/// allocation.
pub struct ContiguousMemorySlice<T> {
    ptr: u64,
    len: usize,
    mm_caching: MEMORY_CACHING_TYPE,
    value: PhantomData<T>,
}

impl<T> View for ContiguousMemorySlice<T> {
    /// The address of the first element.
    type V = u64;

    closed spec fn view(&self) -> u64 {
        self.ptr
    }
}

impl<T> ContiguousMemorySlice<T> {
    pub closed spec fn spec_len(&self) -> usize {
        self.len
    }

    pub closed spec fn spec_caching(&self) -> MEMORY_CACHING_TYPE {
        self.mm_caching
    }

    /// What a slice constructor returns once the allocation answered `addr`.
    pub open spec fn created(r: Option<Self>, addr: u64, len: usize, caching: MEMORY_CACHING_TYPE) -> bool {
        match allocation(addr) {
            None => r is None,
            Some(a) => r matches Some(h) && h@ == a && h.spec_len() == len && h.spec_caching() == caching,
        }
    }

    /// Number of elements.
    pub fn len(&self) -> (r: usize)
        ensures
            r == self.spec_len(),
    {
        self.len
    }

    /// The caching policy of the allocation.
    pub fn caching_type(&self) -> (r: MEMORY_CACHING_TYPE)
        ensures
            r == self.spec_caching(),
    {
        self.mm_caching
    }

    /// Address of the first element.
    pub fn address(&self) -> (r: u64)
        ensures
            r == self@,
    {
        self.ptr
    }

    /// Allocates `len` uninitialized elements with `MmCached` caching; their
    /// bytes are zero.
    pub fn new_uninit<F: FnOnce(usize, i64, i64, i64, MEMORY_CACHING_TYPE, u32) -> u64, Z: Fn(u64, usize)>(
        len: usize,
        allocate: F,
        zero: &Z,
    ) -> (r: Option<ContiguousMemorySlice<MaybeUninit<T>>>)
        requires
            len * core::mem::size_of::<T>() <= usize::MAX,
            len * core::mem::size_of::<MaybeUninit<T>>() <= usize::MAX,
            forall|n: usize, l: i64, h: i64, b: i64, c: MEMORY_CACHING_TYPE, node: u32| call_requires(allocate, (n, l, h, b, c, node)),
            forall|a: u64, n: usize| contiguous_answered(allocate, a) ==> #[trigger] call_requires(*zero, (a, n)),
        ensures
            exists|addr: u64|
                {
                    &&& #[trigger] contiguous_allocated(allocate, zero, (len * core::mem::size_of::<T>()) as usize, MEMORY_CACHING_TYPE::MmCached, addr)
                    &&& ContiguousMemorySlice::<MaybeUninit<T>>::created(r, addr, len, MEMORY_CACHING_TYPE::MmCached)
                    &&& addr != 0 ==> call_ensures(*zero, (addr, (len * core::mem::size_of::<MaybeUninit<T>>()) as usize), ())
                },
    {
        Self::new_uninit_with_caching_type(MEMORY_CACHING_TYPE::MmCached, len, allocate, zero)
    }

    /// Allocates `len` uninitialized elements with caching `mm_caching`; their
    /// bytes are zero.
    pub fn new_uninit_with_caching_type<F: FnOnce(usize, i64, i64, i64, MEMORY_CACHING_TYPE, u32) -> u64, Z: Fn(u64, usize)>(
        mm_caching: MEMORY_CACHING_TYPE,
        len: usize,
        allocate: F,
        zero: &Z,
    ) -> (r: Option<ContiguousMemorySlice<MaybeUninit<T>>>)
        requires
            len * core::mem::size_of::<T>() <= usize::MAX,
            len * core::mem::size_of::<MaybeUninit<T>>() <= usize::MAX,
            forall|n: usize, l: i64, h: i64, b: i64, c: MEMORY_CACHING_TYPE, node: u32| call_requires(allocate, (n, l, h, b, c, node)),
            forall|a: u64, n: usize| contiguous_answered(allocate, a) ==> #[trigger] call_requires(*zero, (a, n)),
        ensures
            exists|addr: u64|
                {
                    &&& #[trigger] contiguous_allocated(allocate, zero, (len * core::mem::size_of::<T>()) as usize, mm_caching, addr)
                    &&& ContiguousMemorySlice::<MaybeUninit<T>>::created(r, addr, len, mm_caching)
                    &&& addr != 0 ==> call_ensures(*zero, (addr, (len * core::mem::size_of::<MaybeUninit<T>>()) as usize), ())
                },
    {
        let size = len * core::mem::size_of::<T>();
        assert(size == (len * core::mem::size_of::<T>()) as usize);
        let ptr = match alloc_contiguous_memory(size, mm_caching, allocate, zero) {
            Some(m) => m,
            None => return None,
        };
        zero(ptr, len * core::mem::size_of::<MaybeUninit<T>>());
        Some(ContiguousMemorySlice::<MaybeUninit<T>> { ptr, len, mm_caching, value: PhantomData })
    }

    /// Allocates `len` elements with `MmCached` caching whose bytes are all
    /// zero.
    pub fn new_zeroed<F: FnOnce(usize, i64, i64, i64, MEMORY_CACHING_TYPE, u32) -> u64, Z: Fn(u64, usize)>(
        len: usize,
        allocate: F,
        zero: &Z,
    ) -> (r: Option<Self>)
        requires
            len * core::mem::size_of::<T>() <= usize::MAX,
            forall|n: usize, l: i64, h: i64, b: i64, c: MEMORY_CACHING_TYPE, node: u32| call_requires(allocate, (n, l, h, b, c, node)),
            forall|a: u64, n: usize| contiguous_answered(allocate, a) ==> #[trigger] call_requires(*zero, (a, n)),
        ensures
            exists|addr: u64|
                #[trigger] contiguous_allocated(allocate, zero, (len * core::mem::size_of::<T>()) as usize, MEMORY_CACHING_TYPE::MmCached, addr)
                    && Self::created(r, addr, len, MEMORY_CACHING_TYPE::MmCached),
    {
        Self::new_zeroed_with_caching_type(len, MEMORY_CACHING_TYPE::MmCached, allocate, zero)
    }

    /// Allocates `len` elements with caching `mm_caching` whose bytes are all
    /// zero.
    pub fn new_zeroed_with_caching_type<F: FnOnce(usize, i64, i64, i64, MEMORY_CACHING_TYPE, u32) -> u64, Z: Fn(u64, usize)>(
        len: usize,
        mm_caching: MEMORY_CACHING_TYPE,
        allocate: F,
        zero: &Z,
    ) -> (r: Option<Self>)
        requires
            len * core::mem::size_of::<T>() <= usize::MAX,
            forall|n: usize, l: i64, h: i64, b: i64, c: MEMORY_CACHING_TYPE, node: u32| call_requires(allocate, (n, l, h, b, c, node)),
            forall|a: u64, n: usize| contiguous_answered(allocate, a) ==> #[trigger] call_requires(*zero, (a, n)),
        ensures
            exists|addr: u64|
                #[trigger] contiguous_allocated(allocate, zero, (len * core::mem::size_of::<T>()) as usize, mm_caching, addr)
                    && Self::created(r, addr, len, mm_caching),
    {
        let size = len * core::mem::size_of::<T>();
        assert(size == (len * core::mem::size_of::<T>()) as usize);
        let ptr = match alloc_contiguous_memory(size, mm_caching, allocate, zero) {
            Some(m) => m,
            None => return None,
        };
        zero(ptr, size);
        Some(ContiguousMemorySlice { ptr, len, mm_caching, value: PhantomData })
    }

    /// Allocates `len` elements with `MmCached` caching and lets `initializer`
    /// initialize them in place (it is given the address of the first element
    /// and the number of elements).
    pub fn new_with_initializer<I: FnOnce(u64, usize), F: FnOnce(usize, i64, i64, i64, MEMORY_CACHING_TYPE, u32) -> u64, Z: Fn(u64, usize)>(
        len: usize,
        initializer: I,
        allocate: F,
        zero: &Z,
    ) -> (r: Option<Self>)
        requires
            len * core::mem::size_of::<T>() <= usize::MAX,
            len * core::mem::size_of::<MaybeUninit<T>>() <= usize::MAX,
            forall|a: u64, n: usize| contiguous_answered(allocate, a) ==> #[trigger] call_requires(initializer, (a, n)),
            forall|n: usize, l: i64, h: i64, b: i64, c: MEMORY_CACHING_TYPE, node: u32| call_requires(allocate, (n, l, h, b, c, node)),
            forall|a: u64, n: usize| contiguous_answered(allocate, a) ==> #[trigger] call_requires(*zero, (a, n)),
        ensures
            exists|addr: u64|
                {
                    &&& #[trigger] contiguous_allocated(allocate, zero, (len * core::mem::size_of::<T>()) as usize, MEMORY_CACHING_TYPE::MmCached, addr)
                    &&& Self::created(r, addr, len, MEMORY_CACHING_TYPE::MmCached)
                    &&& addr != 0 ==> call_ensures(initializer, (addr, len), ())
                },
    {
        Self::new_with_initializer_and_caching_type(MEMORY_CACHING_TYPE::MmCached, len, initializer, allocate, zero)
    }

    /// Allocates `len` elements with caching `mm_caching` and lets
    /// `initializer` initialize them in place.
    pub fn new_with_initializer_and_caching_type<I: FnOnce(u64, usize), F: FnOnce(usize, i64, i64, i64, MEMORY_CACHING_TYPE, u32) -> u64, Z: Fn(u64, usize)>(
        mm_caching: MEMORY_CACHING_TYPE,
        len: usize,
        initializer: I,
        allocate: F,
        zero: &Z,
    ) -> (r: Option<Self>)
        requires
            len * core::mem::size_of::<T>() <= usize::MAX,
            len * core::mem::size_of::<MaybeUninit<T>>() <= usize::MAX,
            forall|a: u64, n: usize| contiguous_answered(allocate, a) ==> #[trigger] call_requires(initializer, (a, n)),
            forall|n: usize, l: i64, h: i64, b: i64, c: MEMORY_CACHING_TYPE, node: u32| call_requires(allocate, (n, l, h, b, c, node)),
            forall|a: u64, n: usize| contiguous_answered(allocate, a) ==> #[trigger] call_requires(*zero, (a, n)),
        ensures
            exists|addr: u64|
                {
                    &&& #[trigger] contiguous_allocated(allocate, zero, (len * core::mem::size_of::<T>()) as usize, mm_caching, addr)
                    &&& Self::created(r, addr, len, mm_caching)
                    &&& addr != 0 ==> call_ensures(initializer, (addr, len), ())
                },
    {
        let self_uninit = match Self::new_uninit_with_caching_type(mm_caching, len, allocate, zero) {
            Some(h) => h,
            None => return None,
        };
        initializer(self_uninit.ptr, len);
        Some(self_uninit.assume_init())
    }
}

impl<T: Clone> ContiguousMemorySlice<T> {
    /// Allocates `count` elements with `MmCached` caching, each one a clone of
    /// `val` moved into place through `write`.
    pub fn new<F: FnOnce(usize, i64, i64, i64, MEMORY_CACHING_TYPE, u32) -> u64, Z: FnOnce(u64, usize), W: Fn(u64, T)>(
        val: T,
        count: usize,
        allocate: F,
        zero: Z,
        write: &W,
    ) -> (r: Option<Self>)
        requires
            count * core::mem::size_of::<T>() <= usize::MAX,
            forall|n: usize, l: i64, h: i64, b: i64, c: MEMORY_CACHING_TYPE, node: u32| call_requires(allocate, (n, l, h, b, c, node)),
            forall|a: u64, n: usize| contiguous_answered(allocate, a) ==> #[trigger] call_requires(zero, (a, n)),
            forall|b: u64, a: u64, v: T|
                #![trigger contiguous_answered(allocate, b), call_requires(*write, (a, v))]
                contiguous_answered(allocate, b) ==> call_requires(*write, (a, v)),
        ensures
            exists|addr: u64|
                {
                    &&& #[trigger] contiguous_allocated(allocate, zero, (count * core::mem::size_of::<T>()) as usize, MEMORY_CACHING_TYPE::MmCached, addr)
                    &&& Self::created(r, addr, count, MEMORY_CACHING_TYPE::MmCached)
                    &&& addr != 0 ==> filled::<T, W>(addr, count, val, *write)
                },
    {
        Self::new_with_caching_type(val, count, MEMORY_CACHING_TYPE::MmCached, allocate, zero, write)
    }

    /// Allocates `count` elements with caching `caching_type`, each one a clone
    /// of `val` moved into place through `write`.
    pub fn new_with_caching_type<F: FnOnce(usize, i64, i64, i64, MEMORY_CACHING_TYPE, u32) -> u64, Z: FnOnce(u64, usize), W: Fn(u64, T)>(
        val: T,
        count: usize,
        caching_type: MEMORY_CACHING_TYPE,
        allocate: F,
        zero: Z,
        write: &W,
    ) -> (r: Option<Self>)
        requires
            count * core::mem::size_of::<T>() <= usize::MAX,
            forall|n: usize, l: i64, h: i64, b: i64, c: MEMORY_CACHING_TYPE, node: u32| call_requires(allocate, (n, l, h, b, c, node)),
            forall|a: u64, n: usize| contiguous_answered(allocate, a) ==> #[trigger] call_requires(zero, (a, n)),
            forall|b: u64, a: u64, v: T|
                #![trigger contiguous_answered(allocate, b), call_requires(*write, (a, v))]
                contiguous_answered(allocate, b) ==> call_requires(*write, (a, v)),
        ensures
            exists|addr: u64|
                {
                    &&& #[trigger] contiguous_allocated(allocate, zero, (count * core::mem::size_of::<T>()) as usize, caching_type, addr)
                    &&& Self::created(r, addr, count, caching_type)
                    &&& addr != 0 ==> filled::<T, W>(addr, count, val, *write)
                },
    {
        let size = count * core::mem::size_of::<T>();
        assert(size == (count * core::mem::size_of::<T>()) as usize);
        let mem = match alloc_contiguous_memory(size, caching_type, allocate, zero) {
            Some(m) => m,
            None => return None,
        };
        assert(contiguous_answered(allocate, mem));
        assert forall|a: u64, v: T| call_requires(*write, (a, v)) by {
            assert(contiguous_answered(allocate, mem));
        }
        fill_elements(mem, &val, count, write);
        Some(ContiguousMemorySlice { ptr: mem, len: count, mm_caching: caching_type, value: PhantomData })
    }
}

impl<T> ContiguousMemorySlice<MaybeUninit<T>> {
    /// Treats the elements as initialized `T`s; the caller is responsible for
    /// having initialized them.
    pub fn assume_init(self) -> (r: ContiguousMemorySlice<T>)
        ensures
            r@ == self@,
            r.spec_len() == self.spec_len(),
            r.spec_caching() == self.spec_caching(),
    {
        ContiguousMemorySlice { ptr: self.ptr, len: self.len, mm_caching: self.mm_caching, value: PhantomData }
    }
}

} // verus!
