use std::cell::RefCell;
use std::mem::MaybeUninit;
use winkernl::kalloc::contiguous::{ContiguousMemory, ContiguousMemorySlice};
use winkernl::kalloc::pool::{PoolMemory, PoolMemorySlice};
use winkernl::kalloc::KernelAllocator;
use winkernl::memory::allocator::{alloc_contiguous_memory, alloc_contiguous_memory_t, alloc_pool, alloc_pool_t};
use winkernl::memory::mdl::Mdl;
use winkernl::memory::pattern_search;
use winkernl::memory::rw::{check_copy, mm_read_virtual_memory_from_pid, mm_write_virtual_memory_from_pid, write_to_read_only_memory};
use winkernl::sys::{LOCK_OPERATION, MEMORY_CACHING_TYPE, MM_PAGE_PRIORITY, POOL_TYPE, PAGE_READWRITE};
use winkernl::{
    init_object_attributes, nt_success, OBJECT_ATTRIBUTES, OBJECT_ATTRIBUTES_SIZE, STATUS_BUFFER_TOO_SMALL,
    STATUS_INVALID_PARAMETER, STATUS_UNSUCCESSFUL,
};

#[test]
fn pattern_first_occurrence() {
    let image = [0x10, 0x48, 0x8B, 0x05, 0x48, 0x8B, 0x0D, 0x90];
    assert_eq!(pattern_search(0x1000, &image, &[Some(0x48), Some(0x8B)]), Some(0x1001));
    assert_eq!(pattern_search(0x1000, &image, &[Some(0x48), None, Some(0x0D)]), Some(0x1004));
    assert_eq!(pattern_search(0x1000, &image, &[None]), Some(0x1000));
    assert_eq!(pattern_search(0x1000, &image, &[Some(0x90)]), Some(0x1007));
}

#[test]
fn pattern_not_found() {
    let image = [1, 2, 3];
    assert_eq!(pattern_search(0x1000, &image, &[]), None);
    assert_eq!(pattern_search(0x1000, &image, &[Some(2), Some(2)]), None);
    assert_eq!(pattern_search(0x1000, &image, &[None, None, None, None]), None);
    assert_eq!(pattern_search(0x1000, &[], &[None]), None);
    assert_eq!(pattern_search(0x1000, &image, &[None, None, None]), Some(0x1000));
}

#[test]
fn copy_reports() {
    assert_eq!(check_copy(0, 16, 16), Ok(()));
    assert_eq!(check_copy(0, 0, 16), Err(STATUS_UNSUCCESSFUL));
    assert_eq!(check_copy(0, 8, 16), Err(STATUS_BUFFER_TOO_SMALL));
    assert_eq!(check_copy(STATUS_INVALID_PARAMETER, 16, 16), Err(STATUS_INVALID_PARAMETER));
    assert_eq!(check_copy(0x103, 16, 16), Ok(()));
}

#[test]
fn read_from_process() {
    let log = RefCell::new(Vec::new());
    let r = mm_read_virtual_memory_from_pid(
        42,
        16,
        |pid| {
            log.borrow_mut().push(format!("lookup {}", pid));
            (0, 0xAAAA)
        },
        |p| {
            log.borrow_mut().push(format!("copy {:x}", p));
            (0, 16)
        },
        |p| log.borrow_mut().push(format!("deref {:x}", p)),
    );
    assert_eq!(r, Ok(()));
    assert_eq!(*log.borrow(), vec!["lookup 42", "copy aaaa", "deref aaaa"]);
}

#[test]
fn read_from_process_errors() {
    let derefs = RefCell::new(0);
    let r = mm_read_virtual_memory_from_pid(42, 16, |_| (STATUS_INVALID_PARAMETER, 0), |_| panic!(), |_| panic!());
    assert_eq!(r, Err(STATUS_INVALID_PARAMETER));
    let r = mm_read_virtual_memory_from_pid(42, 16, |_| (0, 1), |_| (STATUS_UNSUCCESSFUL, 0), |_| *derefs.borrow_mut() += 1);
    assert_eq!(r, Err(STATUS_UNSUCCESSFUL));
    let r = mm_read_virtual_memory_from_pid(42, 16, |_| (0, 1), |_| (0, 0), |_| *derefs.borrow_mut() += 1);
    assert_eq!(r, Err(STATUS_UNSUCCESSFUL));
    let r = mm_write_virtual_memory_from_pid(42, 16, |_| (0, 1), |_| (0, 4), |_| *derefs.borrow_mut() += 1);
    assert_eq!(r, Err(STATUS_BUFFER_TOO_SMALL));
    assert_eq!(*derefs.borrow(), 3);
    let r = mm_write_virtual_memory_from_pid(42, 4, |_| (0, 1), |_| (0, 4), |_| ());
    assert_eq!(r, Ok(()));
}

#[test]
fn write_read_only_takes_and_gives_back_everything() {
    let log = RefCell::new(Vec::new());
    let ok = write_to_read_only_memory(
        0xFFFF_F800_1000_0000,
        5,
        |a, n| {
            log.borrow_mut().push(format!("alloc {:x} {}", a, n));
            0x7000
        },
        |m, mode, op| {
            assert_eq!(op, LOCK_OPERATION::IoWriteAccess);
            log.borrow_mut().push(format!("lock {:x} {}", m, mode));
        },
        |m, mode, c, q, b, p| {
            assert_eq!(c, MEMORY_CACHING_TYPE::MmNonCached);
            log.borrow_mut().push(format!("map {:x} {} {} {} {}", m, mode, q, b, p));
            0x9000
        },
        |m, prot| {
            assert_eq!(prot, PAGE_READWRITE);
            log.borrow_mut().push(format!("protect {:x}", m));
            0
        },
        |at| log.borrow_mut().push(format!("copy {:x}", at)),
        |at, m| log.borrow_mut().push(format!("unmap {:x} {:x}", at, m)),
        |m| log.borrow_mut().push(format!("unlock {:x}", m)),
        |m| log.borrow_mut().push(format!("free {:x}", m)),
    );
    assert!(ok);
    assert_eq!(
        *log.borrow(),
        vec![
            "alloc fffff80010000000 5",
            "lock 7000 0",
            "map 7000 0 0 0 16",
            "protect 7000",
            "copy 9000",
            "unmap 9000 7000",
            "unlock 7000",
            "free 7000",
        ]
    );
}

#[test]
fn write_read_only_failures_release_the_mdl() {
    let log = RefCell::new(Vec::new());
    let ok = write_to_read_only_memory(
        0x1000,
        5,
        |_, _| 0x7000,
        |_, _, _| (),
        |_, _, _, _, _, _| 0,
        |_, _| panic!(),
        |_| panic!(),
        |_, _| panic!(),
        |m| log.borrow_mut().push(format!("unlock {:x}", m)),
        |m| log.borrow_mut().push(format!("free {:x}", m)),
    );
    assert!(!ok);
    assert_eq!(*log.borrow(), vec!["unlock 7000", "free 7000"]);
    let ok = write_to_read_only_memory(
        0x1000,
        5,
        |_, _| 0,
        |_, _, _| panic!(),
        |_, _, _, _, _, _| panic!(),
        |_, _| panic!(),
        |_| panic!(),
        |_, _| panic!(),
        |_| panic!(),
        |_| panic!(),
    );
    assert!(!ok);
    let refused = |dst: u64, len: usize| {
        write_to_read_only_memory(
            dst,
            len,
            |_, _| panic!(),
            |_, _, _| panic!(),
            |_, _, _, _, _, _| panic!(),
            |_, _| panic!(),
            |_| panic!(),
            |_, _| panic!(),
            |_| panic!(),
            |_| panic!(),
        )
    };
    assert!(!refused(0, 5));
    assert!(!refused(0x1000, 0));
}

#[test]
fn mdl_lifecycle() {
    let mut mdl = Mdl::new(0x1000, 0x2000, |a, n| {
        assert_eq!((a, n), (0x1000, 0x2000));
        0x7000
    })
    .unwrap();
    assert_eq!(mdl.mdl(), 0x7000);
    assert!(!mdl.is_locked());
    mdl.lock(0, LOCK_OPERATION::IoReadAccess, |_, _, _| ());
    assert!(mdl.is_locked());
    {
        let map = mdl
            .map_locked::<u8, _>(0, MEMORY_CACHING_TYPE::MmCached, Some(0x5000), true, MM_PAGE_PRIORITY::HighPagePriority, |m, _, c, q, b, p| {
                assert_eq!((m, c, q, b, p), (0x7000, MEMORY_CACHING_TYPE::MmCached, 0x5000, 1, 32));
                0x9000
            })
            .unwrap();
        assert_eq!(map.as_ptr(), 0x9000);
        map.protect(PAGE_READWRITE, |m, p| {
            assert_eq!((m, p), (0x7000, PAGE_READWRITE));
            0
        });
        map.unmap(|a, m| assert_eq!((a, m), (0x9000, 0x7000)));
    }
    mdl.unlock(|m| assert_eq!(m, 0x7000));
    assert!(!mdl.is_locked());
    let freed = RefCell::new(false);
    mdl.release(|_| panic!("already unlocked"), |m| {
        assert_eq!(m, 0x7000);
        *freed.borrow_mut() = true;
    });
    assert!(*freed.borrow());
    assert!(Mdl::new(0x1000, 1, |_, _| 0).is_none());
}

#[test]
fn mdl_map_failure() {
    let mut mdl = Mdl::new(0x1000, 1, |_, _| 0x7000).unwrap();
    let map = mdl.map_locked::<u8, _>(0, MEMORY_CACHING_TYPE::MmNonCached, None, false, MM_PAGE_PRIORITY::LowPagePriority, |_, _, _, q, b, p| {
        assert_eq!((q, b, p), (0, 0, 0));
        0
    });
    assert!(map.is_none());
    assert_eq!(MM_PAGE_PRIORITY::NormalPagePriority.value(), 16);
}

#[test]
fn pool_allocation() {
    assert_eq!(alloc_pool(POOL_TYPE::NonPagedPool, 64, |p, n| {
        assert_eq!((p, n), (POOL_TYPE::NonPagedPool, 64));
        0x8000
    }), Some(0x8000));
    assert_eq!(alloc_pool(POOL_TYPE::PagedPool, 64, |_, _| 0), None);
    assert_eq!(alloc_pool_t::<u64, _>(POOL_TYPE::PagedPool, |_, n| {
        assert_eq!(n, 8);
        0x8000
    }), Some(0x8000));
}

#[test]
fn contiguous_allocation_is_zeroed() {
    let zeroed = RefCell::new(Vec::new());
    let r = alloc_contiguous_memory(
        4096,
        MEMORY_CACHING_TYPE::MmNonCached,
        |n, low, high, boundary, c, node| {
            assert_eq!((n, low, high, boundary, c, node), (4096, 0, i64::MAX, 0, MEMORY_CACHING_TYPE::MmNonCached, 0x8000_0000));
            0x20_0000
        },
        |a, n| zeroed.borrow_mut().push((a, n)),
    );
    assert_eq!(r, Some(0x20_0000));
    assert_eq!(*zeroed.borrow(), vec![(0x20_0000, 4096)]);
    let r = alloc_contiguous_memory(4096, MEMORY_CACHING_TYPE::MmCached, |_, _, _, _, _, _| 0, |_, _| panic!());
    assert_eq!(r, None);
    let r = alloc_contiguous_memory_t::<u32, _, _>(MEMORY_CACHING_TYPE::MmCached, |n, _, _, _, _, _| {
        assert_eq!(n, 4);
        0x1000
    }, |_, n| assert_eq!(n, 4));
    assert_eq!(r, Some(0x1000));
}

#[test]
fn pool_memory_handles() {
    let written = RefCell::new(Vec::new());
    let m = PoolMemory::new(7u32, |p, n| {
        assert_eq!((p, n), (POOL_TYPE::NonPagedPool, 4));
        0x8000
    }, |a, v| written.borrow_mut().push((a, v)))
    .unwrap();
    assert_eq!(m.address(), 0x8000);
    assert_eq!(*written.borrow(), vec![(0x8000, 7)]);
    assert!(PoolMemory::new(7u32, |_, _| 0, |_, _| panic!()).is_none());
    let z = PoolMemory::<u64>::new_zeroed(|p, _| {
        assert_eq!(p, POOL_TYPE::PagedPool);
        0x9000
    }, |a, n| assert_eq!((a, n), (0x9000, 8)))
    .unwrap();
    assert_eq!(z.address(), 0x9000);
    let u = PoolMemory::<u16>::new_uninit(|p, n| {
        assert_eq!((p, n), (POOL_TYPE::NonPagedPool, 2));
        0xA000
    })
    .unwrap();
    let u: PoolMemory<u16> = u.assume_init();
    assert_eq!(u.address(), 0xA000);
    let i = PoolMemory::<u32>::new_with_initializer(|a| assert_eq!(a, 0xB000), |_, _| 0xB000).unwrap();
    assert_eq!(i.address(), 0xB000);
    let _: Option<PoolMemory<MaybeUninit<u8>>> = PoolMemory::<u8>::new_uninit_with_pool_type(POOL_TYPE::NonPagedPoolNx, |p, _| {
        assert_eq!(p, POOL_TYPE::NonPagedPoolNx);
        0
    });
}

#[test]
fn pool_slice_handles() {
    let written = RefCell::new(Vec::new());
    let s = PoolMemorySlice::new(9u16, 3, |p, n| {
        assert_eq!((p, n), (POOL_TYPE::NonPagedPool, 6));
        0x8000
    }, &|a: u64, v: u16| written.borrow_mut().push((a, v)))
    .unwrap();
    assert_eq!((s.address(), s.len(), s.pool_type()), (0x8000, 3, POOL_TYPE::NonPagedPool));
    assert_eq!(*written.borrow(), vec![(0x8000, 9), (0x8002, 9), (0x8004, 9)]);
    let u = PoolMemorySlice::<u32>::new_uninit(4, |p, n| {
        assert_eq!((p, n), (POOL_TYPE::NonPagedPool, 16));
        0x9000
    }, |a, n| assert_eq!((a, n), (0x9000, 16)))
    .unwrap();
    let u: PoolMemorySlice<u32> = u.assume_init();
    assert_eq!(u.len(), 4);
    let init = PoolMemorySlice::<u8>::new_with_initializer(5, |a, n| assert_eq!((a, n), (0xC000, 5)), |p, _| {
        assert_eq!(p, POOL_TYPE::NonPagedPool);
        0xC000
    }, |_, _| ())
    .unwrap();
    assert_eq!(init.pool_type(), POOL_TYPE::NonPagedPool);
    let z = PoolMemorySlice::<u64>::new_zeroed(2, |p, _| {
        assert_eq!(p, POOL_TYPE::NonPagedPool);
        0xD000
    }, |a, n| assert_eq!((a, n), (0xD000, 16))).unwrap();
    assert_eq!(z.len(), 2);
    assert!(PoolMemorySlice::<u64>::new_zeroed(2, |_, _| 0, |_, _| panic!()).is_none());
}

#[test]
fn contiguous_handles() {
    let zero = |_: u64, _: usize| ();
    let c = ContiguousMemory::new(5u64, |n, _, _, _, c, _| {
        assert_eq!((n, c), (8, MEMORY_CACHING_TYPE::MmCached));
        0x20_0000
    }, |_, _| (), |a, v| assert_eq!((a, v), (0x20_0000, 5)))
    .unwrap();
    assert_eq!((c.as_ptr(), c.caching_type()), (0x20_0000, MEMORY_CACHING_TYPE::MmCached));
    let u = ContiguousMemory::<u32>::new_uninit_with_caching_type(MEMORY_CACHING_TYPE::MmWriteCombined, |_, _, _, _, c, _| {
        assert_eq!(c, MEMORY_CACHING_TYPE::MmWriteCombined);
        0x30_0000
    }, &zero)
    .unwrap();
    let u: ContiguousMemory<u32> = u.assume_init();
    assert_eq!(u.caching_type(), MEMORY_CACHING_TYPE::MmWriteCombined);
    let s = ContiguousMemorySlice::<u16>::new_zeroed(8, |n, _, _, _, _, _| {
        assert_eq!(n, 16);
        0x40_0000
    }, &zero)
    .unwrap();
    assert_eq!((s.address(), s.len(), s.caching_type()), (0x40_0000, 8, MEMORY_CACHING_TYPE::MmCached));
    assert!(ContiguousMemorySlice::<u16>::new_zeroed(8, |_, _, _, _, _, _| 0, &zero).is_none());
}

#[test]
fn allocator_round_trip() {
    let a = KernelAllocator;
    let block = a.allocate(100, |p, n| {
        assert_eq!((p, n), (POOL_TYPE::NonPagedPool, 100));
        0x1004
    });
    assert_eq!(block, 0x1004);
    let freed = RefCell::new(None);
    a.dealloc(block, |b| *freed.borrow_mut() = Some(b));
    assert_eq!(*freed.borrow(), Some(0x1004));
    a.dealloc(0, |_| panic!());
    assert_eq!(a.allocate(8, |_, _| 0), 0);
}

#[test]
fn object_attributes() {
    let mut o = OBJECT_ATTRIBUTES { Length: 1, RootDirectory: 2, ObjectName: 3, Attributes: 4, SecurityDescriptor: 5, SecurityQualityOfService: 6 };
    init_object_attributes(&mut o, 0x7000, 0x240);
    assert_eq!(o.Length, OBJECT_ATTRIBUTES_SIZE);
    assert_eq!(OBJECT_ATTRIBUTES_SIZE, 48);
    assert_eq!((o.RootDirectory, o.ObjectName, o.Attributes, o.SecurityDescriptor, o.SecurityQualityOfService), (0, 0x7000, 0x240, 0, 0));
}

#[test]
fn status_success() {
    assert!(nt_success(0));
    assert!(nt_success(0x103));
    assert!(!nt_success(STATUS_UNSUCCESSFUL));
}
