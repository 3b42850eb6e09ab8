use storage_poc::allocator::AllocStorage;
use storage_poc::alternative::{SingleElement, SingleElementHandle};
use storage_poc::fallback::{FallbackElement, FallbackElementHandle, FallbackRange,
    FallbackRangeHandle};
use storage_poc::inline::NonTrackingRange;
use storage_poc::layout::Layout;
use storage_poc::traits::{ElementStorage, RangeStorage};
use storage_poc::utils::{NonAllocator, SpyAllocator};

// Fallback element storage: the first backend serves what fits it, the second
// serves what the first refuses, and the tag says which one did.

#[test]
fn fallback_element_routes_by_fit() {
    let mut storage = FallbackElement::new(
        storage_poc::inline::SingleElement::<u8>::new(Layout::new(1, 1)),
        storage_poc::inline::SingleElement::<u8>::new(Layout::new(8, 8)),
    );

    let small = storage.create(1u8, Layout::new(1, 1)).unwrap();
    assert!(matches!(small, FallbackElementHandle::First(_)));
    assert_eq!(1, *storage.get(small));

    let big = storage.create(9u8, Layout::new(8, 8)).unwrap();
    assert!(matches!(big, FallbackElementHandle::Second(_)));
    assert_eq!(9, *storage.get(big));

    storage.create(5u8, Layout::new(16, 16)).unwrap_err();
}

// Fallback range storage: growth across the boundary migrates the data into
// the second backend, and shrinking back below the first backend's reach
// migrates it back; the shared prefix is preserved both ways.

#[test]
fn fallback_range_migrates_and_preserves() {
    let mut storage = FallbackRange::new(
        NonTrackingRange::<u8, u32>::new(2, Layout::new(4, 4)),
        AllocStorage::<SpyAllocator, u32>::new(SpyAllocator::new()),
    );
    let l = Layout::new(4, 4);

    let handle = storage.allocate(2usize, l).unwrap();
    assert!(matches!(handle, FallbackRangeHandle::First(_)));

    storage.write(handle, 0, Some(10u32));
    storage.write(handle, 1, Some(20u32));

    let handle = storage.try_grow(handle, 4usize, l).unwrap();
    assert!(matches!(handle, FallbackRangeHandle::Second(_)));
    assert_eq!(4, storage.capacity_of(handle));
    assert_eq!(Some(10), *storage.read(handle, 0));
    assert_eq!(Some(20), *storage.read(handle, 1));
    assert_eq!(None, *storage.read(handle, 2));

    let handle = storage.try_shrink(handle, 1usize, l).unwrap();
    assert!(matches!(handle, FallbackRangeHandle::First(_)));
    assert_eq!(Some(10), *storage.read(handle, 0));

    storage.deallocate(handle);
}

// Fallback range storage: growth fails exactly when the first backend cannot
// grow the handle and the second cannot allocate the new capacity; failure
// leaves everything unchanged.

#[test]
fn fallback_range_grow_fails_when_neither_side_can() {
    let mut storage = FallbackRange::new(
        NonTrackingRange::<u8, u32>::new(2, Layout::new(4, 4)),
        AllocStorage::<NonAllocator, u32>::new(NonAllocator),
    );
    let l = Layout::new(4, 4);

    let handle = storage.allocate(2usize, l).unwrap();
    assert!(matches!(handle, FallbackRangeHandle::First(_)));
    storage.write(handle, 0, Some(5u32));

    storage.try_grow(handle, 4usize, l).unwrap_err();
    storage.try_grow(handle, 300usize, l).unwrap_err();

    assert_eq!(Some(5), *storage.read(handle, 0));
}

// Fallback range storage: the reported maximum is the saturated sum of both
// backends' maxima, clamped to the composite's capacity width.

#[test]
fn fallback_range_maximum_capacity() {
    let storage = FallbackRange::new(
        NonTrackingRange::<u8, u32>::new(2, Layout::new(4, 4)),
        AllocStorage::<SpyAllocator, u32>::new(SpyAllocator::new()),
    );

    assert_eq!(usize::MAX, storage.maximum_capacity(Layout::new(4, 4)));
}

// When the saturated sum does not fit the composite's capacity type, the
// reported maximum is that type's own maximum.

#[test]
fn fallback_range_maximum_capacity_clamps() {
    let storage = FallbackRange::new(
        AllocStorage::<SpyAllocator, u32>::new(SpyAllocator::new()),
        NonTrackingRange::<u8, u32>::new(2, Layout::new(4, 4)),
    );

    assert_eq!(u8::MAX, storage.maximum_capacity(Layout::new(4, 4)));
}

// Alternative storage: while the first backend serves, every handle is
// first-tagged and the state stays First.

#[test]
fn alternative_stays_first_while_first_serves() {
    let mut storage: SingleElement<
        AllocStorage<SpyAllocator, u8>,
        AllocStorage<SpyAllocator, u8>,
        SpyAllocator,
        SpyAllocator,
    > = SingleElement::first(AllocStorage::new(SpyAllocator::new()), SpyAllocator::new());
    let l = Layout::new(1, 1);

    for i in 0..10u8 {
        let handle = storage.create(i, l).unwrap();
        assert!(matches!(handle, SingleElementHandle::First(_)));
        assert_eq!(i, *storage.get(handle));
        storage.destroy(handle);
    }
}

// Alternative storage: the instant the first backend fails, one switch to the
// second occurs, and every later allocation is second-tagged.

#[test]
fn alternative_switches_on_first_overflow() {
    let mut storage: SingleElement<
        AllocStorage<NonAllocator, u8>,
        AllocStorage<SpyAllocator, u8>,
        NonAllocator,
        SpyAllocator,
    > = SingleElement::first(AllocStorage::new(NonAllocator), SpyAllocator::new());
    let l = Layout::new(1, 1);

    let handle = storage.create(1u8, l).unwrap();
    assert!(matches!(handle, SingleElementHandle::Second(_)));
    assert_eq!(1, *storage.get(handle));

    for i in 2..6u8 {
        let handle = storage.create(i, l).unwrap();
        assert!(matches!(handle, SingleElementHandle::Second(_)));
        assert_eq!(i, *storage.get(handle));
    }
}

// Alternative storage: a failed create still returns the value unchanged,
// and the switch is committed even when the second backend also failed.

#[test]
fn alternative_failed_create_returns_value() {
    let mut storage: SingleElement<
        AllocStorage<NonAllocator, String>,
        AllocStorage<NonAllocator, String>,
        NonAllocator,
        NonAllocator,
    > = SingleElement::first(AllocStorage::new(NonAllocator), NonAllocator);
    let text = "kept whole".to_string();

    let back = storage.create(text.clone(), Layout::new(24, 8)).unwrap_err();
    assert_eq!(text, back);

    let back = storage.create(back, Layout::new(24, 8)).unwrap_err();
    assert_eq!(text, back);
}

// Starting in the Second state: allocations are second-tagged from the first
// one on.

#[test]
fn alternative_second_from_construction() {
    let mut storage: SingleElement<
        AllocStorage<NonAllocator, u8>,
        AllocStorage<SpyAllocator, u8>,
        NonAllocator,
        SpyAllocator,
    > = SingleElement::second(AllocStorage::new(SpyAllocator::new()), NonAllocator);

    let handle = storage.allocate(0, Layout::new(1, 1)).unwrap();
    assert!(matches!(handle, SingleElementHandle::Second(_)));
    storage.deallocate(handle);
}
