//! Ownership handles over kernel pool allocations.
//!
//! [`PoolMemory<T>`] owns one `T` in pool memory and [`PoolMemorySlice<T>`]
//! owns `len` consecutive `T`s. A handle records where the allocation lies
//! (and, for slices, its length and pool); the allocation itself
//! (`ExAllocatePool`) and the writes into the new memory are performed by
//! closures that the caller supplies. Uninitialized allocations are typed
//! `MaybeUninit<T>` until [`PoolMemory::assume_init`] converts them.
use vstd::prelude::*;
use core::marker::PhantomData;
use core::mem::MaybeUninit;
use crate::sys::POOL_TYPE;
use crate::memory::allocator::{alloc_pool, alloc_pool_t, allocation};

verus! {

/// Owns a single value of type `T` stored in kernel pool memory.
pub struct PoolMemory<T> {
    mem: u64,
    value: PhantomData<T>,
}

impl<T> View for PoolMemory<T> {
    /// The address of the value.
    type V = u64;

    closed spec fn view(&self) -> u64 {
        self.mem
    }
}

/// What a constructor returns once the pool answered `addr`: nothing for a
/// null address, otherwise the handle of that address.
pub open spec fn owns_allocation<H: View<V = u64>>(r: Option<H>, addr: u64) -> bool {
    match allocation(addr) {
        None => r is None,
        Some(a) => r matches Some(h) && h@ == a,
    }
}

/// `addr` is a non-null allocation that `ex_allocate_pool` can answer.
pub open spec fn pool_answered<F: FnOnce(POOL_TYPE, usize) -> u64>(ex_allocate_pool: F, addr: u64) -> bool {
    addr != 0 && exists|p: POOL_TYPE, n: usize| #[trigger] call_ensures(ex_allocate_pool, (p, n), addr)
}

impl<T> PoolMemory<T> {
    /// Allocates an uninitialized value from the `NonPagedPool`.
    pub fn new_uninit<F: FnOnce(POOL_TYPE, usize) -> u64>(ex_allocate_pool: F) -> (r: Option<PoolMemory<MaybeUninit<T>>>)
        requires
            forall|p: POOL_TYPE, n: usize| call_requires(ex_allocate_pool, (p, n)),
        ensures
            exists|addr: u64|
                #[trigger] call_ensures(ex_allocate_pool, (POOL_TYPE::NonPagedPool, core::mem::size_of::<MaybeUninit<T>>()), addr)
                    && owns_allocation(r, addr),
    {
        Self::new_uninit_with_pool_type(POOL_TYPE::NonPagedPool, ex_allocate_pool)
    }

    /// Allocates an uninitialized value from the pool `pool_type`.
    pub fn new_uninit_with_pool_type<F: FnOnce(POOL_TYPE, usize) -> u64>(pool_type: POOL_TYPE, ex_allocate_pool: F) -> (r: Option<PoolMemory<MaybeUninit<T>>>)
        requires
            forall|p: POOL_TYPE, n: usize| call_requires(ex_allocate_pool, (p, n)),
        ensures
            exists|addr: u64|
                #[trigger] call_ensures(ex_allocate_pool, (pool_type, core::mem::size_of::<MaybeUninit<T>>()), addr)
                    && owns_allocation(r, addr),
    {
        let mem = alloc_pool_t::<MaybeUninit<T>, F>(pool_type, ex_allocate_pool);
        match mem {
            Some(m) => Some(PoolMemory { mem: m, value: PhantomData }),
            None => None,
        }
    }

    /// Allocates a value from the `NonPagedPool` and moves `val` into it
    /// through `write`.
    pub fn new<F: FnOnce(POOL_TYPE, usize) -> u64, W: FnOnce(u64, T)>(val: T, ex_allocate_pool: F, write: W) -> (r: Option<Self>)
        requires
            forall|p: POOL_TYPE, n: usize| call_requires(ex_allocate_pool, (p, n)),
            forall|a: u64, v: T| pool_answered(ex_allocate_pool, a) ==> #[trigger] call_requires(write, (a, v)),
        ensures
            exists|addr: u64|
                {
                    &&& #[trigger] call_ensures(ex_allocate_pool, (POOL_TYPE::NonPagedPool, core::mem::size_of::<T>()), addr)
                    &&& owns_allocation(r, addr)
                    &&& addr != 0 ==> call_ensures(write, (addr, val), ())
                },
    {
        Self::new_with_pool_type(val, POOL_TYPE::NonPagedPool, ex_allocate_pool, write)
    }

    /// Allocates a value from the pool `pool_type` and moves `val` into it
    /// through `write`; `None` (dropping `val`) when the allocation fails.
    pub fn new_with_pool_type<F: FnOnce(POOL_TYPE, usize) -> u64, W: FnOnce(u64, T)>(
        val: T,
        pool_type: POOL_TYPE,
        ex_allocate_pool: F,
        write: W,
    ) -> (r: Option<Self>)
        requires
            forall|p: POOL_TYPE, n: usize| call_requires(ex_allocate_pool, (p, n)),
            forall|a: u64, v: T| pool_answered(ex_allocate_pool, a) ==> #[trigger] call_requires(write, (a, v)),
        ensures
            exists|addr: u64|
                {
                    &&& #[trigger] call_ensures(ex_allocate_pool, (pool_type, core::mem::size_of::<T>()), addr)
                    &&& owns_allocation(r, addr)
                    &&& addr != 0 ==> call_ensures(write, (addr, val), ())
                },
    {
        match alloc_pool_t::<T, F>(pool_type, ex_allocate_pool) {
            Some(m) => {
                write(m, val);
                Some(PoolMemory { mem: m, value: PhantomData })
            },
            None => None,
        }
    }

    /// Allocates a value from the `PagedPool` whose bytes are all zero.
    pub fn new_zeroed<F: FnOnce(POOL_TYPE, usize) -> u64, Z: FnOnce(u64, usize)>(ex_allocate_pool: F, zero: Z) -> (r: Option<Self>)
        requires
            forall|p: POOL_TYPE, n: usize| call_requires(ex_allocate_pool, (p, n)),
            forall|a: u64, n: usize| pool_answered(ex_allocate_pool, a) ==> #[trigger] call_requires(zero, (a, n)),
        ensures
            exists|addr: u64|
                {
                    &&& #[trigger] call_ensures(ex_allocate_pool, (POOL_TYPE::PagedPool, core::mem::size_of::<T>()), addr)
                    &&& owns_allocation(r, addr)
                    &&& addr != 0 ==> call_ensures(zero, (addr, core::mem::size_of::<T>()), ())
                },
    {
        Self::new_zeroed_with_pool_type(POOL_TYPE::PagedPool, ex_allocate_pool, zero)
    }

    /// Allocates a value from the pool `pool_type` and fills its bytes with
    /// zeros through `zero`.
    pub fn new_zeroed_with_pool_type<F: FnOnce(POOL_TYPE, usize) -> u64, Z: FnOnce(u64, usize)>(
        pool_type: POOL_TYPE,
        ex_allocate_pool: F,
        zero: Z,
    ) -> (r: Option<Self>)
        requires
            forall|p: POOL_TYPE, n: usize| call_requires(ex_allocate_pool, (p, n)),
            forall|a: u64, n: usize| pool_answered(ex_allocate_pool, a) ==> #[trigger] call_requires(zero, (a, n)),
        ensures
            exists|addr: u64|
                {
                    &&& #[trigger] call_ensures(ex_allocate_pool, (pool_type, core::mem::size_of::<T>()), addr)
                    &&& owns_allocation(r, addr)
                    &&& addr != 0 ==> call_ensures(zero, (addr, core::mem::size_of::<T>()), ())
                },
    {
        match alloc_pool_t::<T, F>(pool_type, ex_allocate_pool) {
            Some(m) => {
                zero(m, core::mem::size_of::<T>());
                Some(PoolMemory { mem: m, value: PhantomData })
            },
            None => None,
        }
    }

    /// Allocates a value from the `NonPagedPool` and lets `initializer`
    /// initialize it in place (it is given the address of the value).
    pub fn new_with_initializer<I: FnOnce(u64), F: FnOnce(POOL_TYPE, usize) -> u64>(initializer: I, ex_allocate_pool: F) -> (r: Option<Self>)
        requires
            forall|a: u64| pool_answered(ex_allocate_pool, a) ==> #[trigger] call_requires(initializer, (a,)),
            forall|p: POOL_TYPE, n: usize| call_requires(ex_allocate_pool, (p, n)),
        ensures
            exists|addr: u64|
                {
                    &&& #[trigger] call_ensures(ex_allocate_pool, (POOL_TYPE::NonPagedPool, core::mem::size_of::<MaybeUninit<T>>()), addr)
                    &&& owns_allocation(r, addr)
                    &&& addr != 0 ==> call_ensures(initializer, (addr,), ())
                },
    {
        Self::new_with_initializer_and_pool_type(POOL_TYPE::NonPagedPool, initializer, ex_allocate_pool)
    }

    /// Allocates a value from the pool `pool_type` and lets `initializer`
    /// initialize it in place.
    pub fn new_with_initializer_and_pool_type<I: FnOnce(u64), F: FnOnce(POOL_TYPE, usize) -> u64>(
        pool_type: POOL_TYPE,
        initializer: I,
        ex_allocate_pool: F,
    ) -> (r: Option<Self>)
        requires
            forall|a: u64| pool_answered(ex_allocate_pool, a) ==> #[trigger] call_requires(initializer, (a,)),
            forall|p: POOL_TYPE, n: usize| call_requires(ex_allocate_pool, (p, n)),
        ensures
            exists|addr: u64|
                {
                    &&& #[trigger] call_ensures(ex_allocate_pool, (pool_type, core::mem::size_of::<MaybeUninit<T>>()), addr)
                    &&& owns_allocation(r, addr)
                    &&& addr != 0 ==> call_ensures(initializer, (addr,), ())
                },
    {
        let self_uninit = match Self::new_uninit_with_pool_type(pool_type, ex_allocate_pool) {
            Some(h) => h,
            None => return None,
        };
        initializer(self_uninit.mem);
        Some(self_uninit.assume_init())
    }

    /// Address of the value.
    pub fn address(&self) -> (r: u64)
        ensures
            r == self@,
    {
        self.mem
    }
}

impl<T> PoolMemory<MaybeUninit<T>> {
    /// Treats the allocation as holding an initialized `T`; the caller is
    /// responsible for having initialized it.
    pub fn assume_init(self) -> (r: PoolMemory<T>)
        ensures
            r@ == self@,
    {
        PoolMemory { mem: self.mem, value: PhantomData }
    }
}

/// Owns `len` consecutive values of type `T` stored in kernel pool memory.
pub struct PoolMemorySlice<T> {
    ptr: u64,
    len: usize,
    pool_type: POOL_TYPE,
    value: PhantomData<T>,
}

impl<T> View for PoolMemorySlice<T> {
    /// The address of the first element.
    type V = u64;

    closed spec fn view(&self) -> u64 {
        self.ptr
    }
}

/// Address of element `i` of an array of `T` at `base`.
pub open spec fn element_address<T>(base: u64, i: int) -> u64 {
    vstd::wrapping::u64_specs::wrapping_add(base, (i * vstd::layout::size_of::<T>()) as u64)
}

impl<T> PoolMemorySlice<T> {
    pub closed spec fn spec_len(&self) -> usize {
        self.len
    }

    pub closed spec fn spec_pool_type(&self) -> POOL_TYPE {
        self.pool_type
    }

    /// What a slice constructor returns once the pool answered `addr`:
    /// nothing for a null address, otherwise the slice of `len` elements from
    /// `pool_type` at that address.
    pub open spec fn created(r: Option<Self>, addr: u64, len: usize, pool_type: POOL_TYPE) -> bool {
        match allocation(addr) {
            None => r is None,
            Some(a) => r matches Some(h) && h@ == a && h.spec_len() == len && h.spec_pool_type() == pool_type,
        }
    }

    /// Number of elements.
    pub fn len(&self) -> (r: usize)
        ensures
            r == self.spec_len(),
    {
        self.len
    }

    /// The pool the elements live in.
    pub fn pool_type(&self) -> (r: POOL_TYPE)
        ensures
            r == self.spec_pool_type(),
    {
        self.pool_type
    }

    /// Address of the first element.
    pub fn address(&self) -> (r: u64)
        ensures
            r == self@,
    {
        self.ptr
    }

    /// Allocates `len` uninitialized elements from the `NonPagedPool`, with all
    /// their bytes zero.
    pub fn new_uninit<F: FnOnce(POOL_TYPE, usize) -> u64, Z: FnOnce(u64, usize)>(len: usize, ex_allocate_pool: F, zero: Z) -> (r: Option<PoolMemorySlice<MaybeUninit<T>>>)
        requires
            core::mem::size_of::<T>() * len <= usize::MAX,
            len * core::mem::size_of::<MaybeUninit<T>>() <= usize::MAX,
            forall|p: POOL_TYPE, n: usize| call_requires(ex_allocate_pool, (p, n)),
            forall|a: u64, n: usize| pool_answered(ex_allocate_pool, a) ==> #[trigger] call_requires(zero, (a, n)),
        ensures
            exists|addr: u64|
                {
                    &&& #[trigger] call_ensures(ex_allocate_pool, (POOL_TYPE::NonPagedPool, (core::mem::size_of::<T>() * len) as usize), addr)
                    &&& PoolMemorySlice::<MaybeUninit<T>>::created(r, addr, len, POOL_TYPE::NonPagedPool)
                    &&& addr != 0 ==> call_ensures(zero, (addr, (len * core::mem::size_of::<MaybeUninit<T>>()) as usize), ())
                },
    {
        Self::new_uninit_with_pool_type(len, POOL_TYPE::NonPagedPool, ex_allocate_pool, zero)
    }

    /// Allocates `len` uninitialized elements from the pool `pool_type`, with
    /// all their bytes zero.
    pub fn new_uninit_with_pool_type<F: FnOnce(POOL_TYPE, usize) -> u64, Z: FnOnce(u64, usize)>(
        len: usize,
        pool_type: POOL_TYPE,
        ex_allocate_pool: F,
        zero: Z,
    ) -> (r: Option<PoolMemorySlice<MaybeUninit<T>>>)
        requires
            core::mem::size_of::<T>() * len <= usize::MAX,
            len * core::mem::size_of::<MaybeUninit<T>>() <= usize::MAX,
            forall|p: POOL_TYPE, n: usize| call_requires(ex_allocate_pool, (p, n)),
            forall|a: u64, n: usize| pool_answered(ex_allocate_pool, a) ==> #[trigger] call_requires(zero, (a, n)),
        ensures
            exists|addr: u64|
                {
                    &&& #[trigger] call_ensures(ex_allocate_pool, (pool_type, (core::mem::size_of::<T>() * len) as usize), addr)
                    &&& PoolMemorySlice::<MaybeUninit<T>>::created(r, addr, len, pool_type)
                    &&& addr != 0 ==> call_ensures(zero, (addr, (len * core::mem::size_of::<MaybeUninit<T>>()) as usize), ())
                },
    {
        let mem = alloc_pool(pool_type, core::mem::size_of::<T>() * len, ex_allocate_pool);
        match mem {
            Some(m) => {
                zero(m, len * core::mem::size_of::<MaybeUninit<T>>());
                Some(PoolMemorySlice::<MaybeUninit<T>> { ptr: m, len, pool_type, value: PhantomData })
            },
            None => None,
        }
    }

    /// Allocates `count` elements from the `NonPagedPool` whose bytes are all zero.
    pub fn new_zeroed<F: FnOnce(POOL_TYPE, usize) -> u64, Z: FnOnce(u64, usize)>(count: usize, ex_allocate_pool: F, zero: Z) -> (r: Option<Self>)
        requires
            count * core::mem::size_of::<T>() <= usize::MAX,
            forall|p: POOL_TYPE, n: usize| call_requires(ex_allocate_pool, (p, n)),
            forall|a: u64, n: usize| pool_answered(ex_allocate_pool, a) ==> #[trigger] call_requires(zero, (a, n)),
        ensures
            exists|addr: u64|
                {
                    &&& #[trigger] call_ensures(ex_allocate_pool, (POOL_TYPE::NonPagedPool, (count * core::mem::size_of::<T>()) as usize), addr)
                    &&& Self::created(r, addr, count, POOL_TYPE::NonPagedPool)
                    &&& addr != 0 ==> call_ensures(zero, (addr, (count * core::mem::size_of::<T>()) as usize), ())
                },
    {
        Self::new_zeroed_with_pool_type(count, POOL_TYPE::NonPagedPool, ex_allocate_pool, zero)
    }

    /// Allocates `count` elements from the pool `pool_type` whose bytes are
    /// all zero.
    pub fn new_zeroed_with_pool_type<F: FnOnce(POOL_TYPE, usize) -> u64, Z: FnOnce(u64, usize)>(
        count: usize,
        pool_type: POOL_TYPE,
        ex_allocate_pool: F,
        zero: Z,
    ) -> (r: Option<Self>)
        requires
            count * core::mem::size_of::<T>() <= usize::MAX,
            forall|p: POOL_TYPE, n: usize| call_requires(ex_allocate_pool, (p, n)),
            forall|a: u64, n: usize| pool_answered(ex_allocate_pool, a) ==> #[trigger] call_requires(zero, (a, n)),
        ensures
            exists|addr: u64|
                {
                    &&& #[trigger] call_ensures(ex_allocate_pool, (pool_type, (count * core::mem::size_of::<T>()) as usize), addr)
                    &&& Self::created(r, addr, count, pool_type)
                    &&& addr != 0 ==> call_ensures(zero, (addr, (count * core::mem::size_of::<T>()) as usize), ())
                },
    {
        let size = count * core::mem::size_of::<T>();
        match alloc_pool(pool_type, size, ex_allocate_pool) {
            Some(m) => {
                zero(m, size);
                Some(PoolMemorySlice { ptr: m, len: count, pool_type, value: PhantomData })
            },
            None => None,
        }
    }

    /// Allocates `len` elements from the `NonPagedPool` and lets
    /// `initializer` initialize them in place (it is given the address of the
    /// first element and the number of elements).
    pub fn new_with_initializer<I: FnOnce(u64, usize), F: FnOnce(POOL_TYPE, usize) -> u64, Z: FnOnce(u64, usize)>(
        len: usize,
        initializer: I,
        ex_allocate_pool: F,
        zero: Z,
    ) -> (r: Option<Self>)
        requires
            core::mem::size_of::<T>() * len <= usize::MAX,
            len * core::mem::size_of::<MaybeUninit<T>>() <= usize::MAX,
            forall|a: u64, n: usize| pool_answered(ex_allocate_pool, a) ==> #[trigger] call_requires(initializer, (a, n)),
            forall|p: POOL_TYPE, n: usize| call_requires(ex_allocate_pool, (p, n)),
            forall|a: u64, n: usize| pool_answered(ex_allocate_pool, a) ==> #[trigger] call_requires(zero, (a, n)),
        ensures
            exists|addr: u64|
                {
                    &&& #[trigger] call_ensures(ex_allocate_pool, (POOL_TYPE::NonPagedPool, (core::mem::size_of::<T>() * len) as usize), addr)
                    &&& Self::created(r, addr, len, POOL_TYPE::NonPagedPool)
                    &&& addr != 0 ==> call_ensures(zero, (addr, (len * core::mem::size_of::<MaybeUninit<T>>()) as usize), ())
                    &&& addr != 0 ==> call_ensures(initializer, (addr, len), ())
                },
    {
        Self::new_with_initializer_and_pool_type(len, POOL_TYPE::NonPagedPool, initializer, ex_allocate_pool, zero)
    }

    /// Allocates `len` elements from the pool `pool_type` and lets
    /// `initializer` initialize them in place.
    pub fn new_with_initializer_and_pool_type<I: FnOnce(u64, usize), F: FnOnce(POOL_TYPE, usize) -> u64, Z: FnOnce(u64, usize)>(
        len: usize,
        pool_type: POOL_TYPE,
        initializer: I,
        ex_allocate_pool: F,
        zero: Z,
    ) -> (r: Option<Self>)
        requires
            core::mem::size_of::<T>() * len <= usize::MAX,
            len * core::mem::size_of::<MaybeUninit<T>>() <= usize::MAX,
            forall|a: u64, n: usize| pool_answered(ex_allocate_pool, a) ==> #[trigger] call_requires(initializer, (a, n)),
            forall|p: POOL_TYPE, n: usize| call_requires(ex_allocate_pool, (p, n)),
            forall|a: u64, n: usize| pool_answered(ex_allocate_pool, a) ==> #[trigger] call_requires(zero, (a, n)),
        ensures
            exists|addr: u64|
                {
                    &&& #[trigger] call_ensures(ex_allocate_pool, (pool_type, (core::mem::size_of::<T>() * len) as usize), addr)
                    &&& Self::created(r, addr, len, pool_type)
                    &&& addr != 0 ==> call_ensures(zero, (addr, (len * core::mem::size_of::<MaybeUninit<T>>()) as usize), ())
                    &&& addr != 0 ==> call_ensures(initializer, (addr, len), ())
                },
    {
        let self_uninit = match Self::new_uninit_with_pool_type(len, pool_type, ex_allocate_pool, zero) {
            Some(h) => h,
            None => return None,
        };
        initializer(self_uninit.ptr, len);
        Some(self_uninit.assume_init())
    }
}

impl<T: Clone> PoolMemorySlice<T> {
    /// Allocates `count` elements from the `NonPagedPool`, each one a clone of
    /// `val` moved into place through `write`.
    pub fn new<F: FnOnce(POOL_TYPE, usize) -> u64, W: Fn(u64, T)>(val: T, count: usize, ex_allocate_pool: F, write: &W) -> (r: Option<Self>)
        requires
            count * core::mem::size_of::<T>() <= usize::MAX,
            forall|p: POOL_TYPE, n: usize| call_requires(ex_allocate_pool, (p, n)),
            forall|b: u64, a: u64, v: T|
                #![trigger pool_answered(ex_allocate_pool, b), call_requires(*write, (a, v))]
                pool_answered(ex_allocate_pool, b) ==> call_requires(*write, (a, v)),
        ensures
            exists|addr: u64|
                {
                    &&& #[trigger] call_ensures(ex_allocate_pool, (POOL_TYPE::NonPagedPool, (count * core::mem::size_of::<T>()) as usize), addr)
                    &&& Self::created(r, addr, count, POOL_TYPE::NonPagedPool)
                    &&& addr != 0 ==> filled::<T, W>(addr, count, val, *write)
                },
    {
        Self::new_with_pool_type(val, count, POOL_TYPE::NonPagedPool, ex_allocate_pool, write)
    }

    /// Allocates `count` elements from the pool `pool_type`, each one a clone
    /// of `val` moved into place through `write`.
    pub fn new_with_pool_type<F: FnOnce(POOL_TYPE, usize) -> u64, W: Fn(u64, T)>(
        val: T,
        count: usize,
        pool_type: POOL_TYPE,
        ex_allocate_pool: F,
        write: &W,
    ) -> (r: Option<Self>)
        requires
            count * core::mem::size_of::<T>() <= usize::MAX,
            forall|p: POOL_TYPE, n: usize| call_requires(ex_allocate_pool, (p, n)),
            forall|b: u64, a: u64, v: T|
                #![trigger pool_answered(ex_allocate_pool, b), call_requires(*write, (a, v))]
                pool_answered(ex_allocate_pool, b) ==> call_requires(*write, (a, v)),
        ensures
            exists|addr: u64|
                {
                    &&& #[trigger] call_ensures(ex_allocate_pool, (pool_type, (count * core::mem::size_of::<T>()) as usize), addr)
                    &&& Self::created(r, addr, count, pool_type)
                    &&& addr != 0 ==> filled::<T, W>(addr, count, val, *write)
                },
    {
        let mem = match alloc_pool(pool_type, count * core::mem::size_of::<T>(), ex_allocate_pool) {
            Some(m) => m,
            None => return None,
        };
        assert(pool_answered(ex_allocate_pool, mem));
        assert forall|a: u64, v: T| call_requires(*write, (a, v)) by {
            assert(pool_answered(ex_allocate_pool, mem));
        }
        fill_elements(mem, &val, count, write);
        Some(PoolMemorySlice { ptr: mem, len: count, pool_type, value: PhantomData })
    }
}

/// `write` stored a clone of `val` at `addr`.
pub open spec fn slot_written<T: Clone, W: Fn(u64, T)>(write: W, val: T, addr: u64) -> bool {
    exists|v: T| cloned::<T>(val, v) && #[trigger] call_ensures(write, (addr, v), ())
}

/// Every element slot of the `count`-element array at `base` received a
/// clone of `val` through `write`.
pub open spec fn filled<T: Clone, W: Fn(u64, T)>(base: u64, count: usize, val: T, write: W) -> bool {
    forall|i: int| 0 <= i < count ==> #[trigger] slot_written::<T, W>(write, val, element_address::<T>(base, i))
}

/// Writes a clone of `val` into each of the `count` element slots at `base`.
pub fn fill_elements<T: Clone, W: Fn(u64, T)>(base: u64, val: &T, count: usize, write: &W)
    requires
        count * core::mem::size_of::<T>() <= usize::MAX,
        forall|a: u64, v: T| call_requires(*write, (a, v)),
    ensures
        filled::<T, W>(base, count, *val, *write),
{
    let size = core::mem::size_of::<T>();
    let mut i: usize = 0;
    while i < count
        invariant
            i <= count,
            count * size <= usize::MAX,
            size as nat == vstd::layout::size_of::<T>(),
            forall|a: u64, v: T| call_requires(*write, (a, v)),
            forall|k: int| 0 <= k < i ==> #[trigger] slot_written::<T, W>(*write, *val, element_address::<T>(base, k)),
        decreases count - i,
    {
        proof {
            assert(i * size <= count * size) by (nonlinear_arith)
                requires i <= count;
        }
        let element = val.clone();
        let addr = base.wrapping_add((i * size) as u64);
        assert(addr == element_address::<T>(base, i as int));
        write(addr, element);
        assert(cloned::<T>(*val, element));
        assert(slot_written::<T, W>(*write, *val, element_address::<T>(base, i as int)));
        i = i + 1;
    }
}

impl<T> PoolMemorySlice<MaybeUninit<T>> {
    /// Treats the elements as initialized `T`s; the caller is responsible for
    /// having initialized them.
    pub fn assume_init(self) -> (r: PoolMemorySlice<T>)
        ensures
            r@ == self@,
            r.spec_len() == self.spec_len(),
            r.spec_pool_type() == self.spec_pool_type(),
    {
        PoolMemorySlice { ptr: self.ptr, len: self.len, pool_type: self.pool_type, value: PhantomData }
    }
}

} // verus!
