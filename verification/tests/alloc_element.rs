use storage_poc::allocator::AllocStorage;
use storage_poc::layout::Layout;
use storage_poc::traits::{ElementStorage, RangeStorage};
use storage_poc::utils::{NonAllocator, SpyAllocator};

// Element tests

#[test]
fn default_unconditional_success() {
    let _ = AllocStorage::<NonAllocator, u8>::default();
}

#[test]
fn alloc_element_new_unconditional_success() {
    AllocStorage::<NonAllocator, u8>::new(NonAllocator);
}

#[test]
fn alloc_element_create_success() {
    let mut storage = AllocStorage::<SpyAllocator, u32>::new(SpyAllocator::new());
    let handle = storage.create(1u32, Layout::new(4, 4)).unwrap();

    assert_eq!(1, storage.allocator().allocated());
    assert_eq!(0, storage.allocator().deallocated());

    storage.destroy(handle);

    assert_eq!(1, storage.allocator().allocated());
    assert_eq!(1, storage.allocator().deallocated());
}

#[test]
fn create_failure() {
    let mut storage = AllocStorage::<NonAllocator, u8>::new(NonAllocator);
    storage.create(1u8, Layout::new(1, 1)).unwrap_err();
}

#[test]
fn alloc_element_coerce() {
    let mut storage = AllocStorage::<SpyAllocator, [u8; 2]>::new(SpyAllocator::new());
    let handle = storage.create([1u8, 2], Layout::new(2, 1)).unwrap();

    assert_eq!(1, storage.allocator().allocated());
    assert_eq!(0, storage.allocator().deallocated());

    let handle = storage.coerce(handle, 2);

    assert_eq!([1, 2], *storage.get(handle));

    storage.destroy(handle);

    assert_eq!(1, storage.allocator().allocated());
    assert_eq!(1, storage.allocator().deallocated());
}

#[test]
fn coerce_success() {
    let mut storage = AllocStorage::<SpyAllocator, [u32; 3]>::new(SpyAllocator::new());
    let handle = storage.create([1u32, 2, 3], Layout::new(12, 4)).unwrap();
    let handle = storage.coerce(handle, 3);

    assert_eq!(1, storage.allocator().allocated());
    assert_eq!(0, storage.allocator().deallocated());

    storage.destroy(handle);

    assert_eq!(1, storage.allocator().allocated());
    assert_eq!(1, storage.allocator().deallocated());
}

// Range tests

#[test]
fn allocate_zero_success() {
    let mut storage = AllocStorage::<NonAllocator, String>::new(NonAllocator);

    let slice = RangeStorage::allocate(&mut storage, 0usize, Layout::new(24, 8)).unwrap();

    assert_eq!(0, slice.len());
}

#[test]
fn alloc_element_allocate_success() {
    let mut storage = AllocStorage::<SpyAllocator, String>::new(SpyAllocator::new());
    let handle = RangeStorage::allocate(&mut storage, 1usize, Layout::new(24, 8)).unwrap();

    assert_eq!(1, storage.allocator().allocated());
    assert_eq!(0, storage.allocator().deallocated());

    RangeStorage::deallocate(&mut storage, handle);

    assert_eq!(1, storage.allocator().allocated());
    assert_eq!(1, storage.allocator().deallocated());
}

#[test]
fn allocate_failure() {
    let mut storage = AllocStorage::<NonAllocator, String>::new(NonAllocator);
    RangeStorage::allocate(&mut storage, 1usize, Layout::new(24, 8)).unwrap_err();
}

// An allocation of capacity zero yields the dangling sentinel without ever
// reaching the allocator, and deallocating it is a no-op there too.

#[test]
fn allocate_zero_untouched() {
    let mut storage = AllocStorage::<SpyAllocator, u32>::new(SpyAllocator::new());

    let handle = RangeStorage::allocate(&mut storage, 0usize, Layout::new(4, 4)).unwrap();

    assert_eq!(0, handle.len());
    assert_eq!(0, storage.allocator().allocated());

    RangeStorage::deallocate(&mut storage, handle);

    assert_eq!(0, storage.allocator().allocated());
    assert_eq!(0, storage.allocator().deallocated());
}

// Growing from the sentinel allocates afresh; shrinking to zero releases the
// block and hands the sentinel back.

#[test]
fn grow_from_zero_and_shrink_to_zero() {
    let mut storage = AllocStorage::<SpyAllocator, u32>::new(SpyAllocator::new());

    let handle = RangeStorage::allocate(&mut storage, 0usize, Layout::new(4, 4)).unwrap();
    let handle = storage.try_grow(handle, 3usize, Layout::new(4, 4)).unwrap();
    assert_eq!(3, handle.len());
    assert_eq!(1, storage.allocator().allocated());

    let evicted = storage.write(handle, 0, Some(7u32));
    assert_eq!(None, evicted);
    assert_eq!(Some(7), *storage.read(handle, 0));

    let handle = storage.try_shrink(handle, 0usize, Layout::new(4, 4)).unwrap();
    assert_eq!(0, handle.len());
    assert_eq!(1, storage.allocator().deallocated());
}
