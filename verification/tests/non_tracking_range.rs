use storage_poc::inline::NonTrackingRange;
use storage_poc::layout::Layout;
use storage_poc::traits::RangeStorage;

#[test]
fn non_tracking_range_new_unconditional_success() {
    NonTrackingRange::<u8, u8>::new(42, Layout::new(1, 1));
}

#[test]
fn non_tracking_range_allocate_success() {
    let mut storage = NonTrackingRange::<u8, u8>::new(42, Layout::new(1, 1));
    storage.allocate(2u8, Layout::new(1, 1)).unwrap();
}

#[test]
fn allocate_insufficient_size() {
    let mut storage = NonTrackingRange::<u8, u8>::new(2, Layout::new(1, 1));
    storage.allocate(3u8, Layout::new(1, 1)).unwrap_err();
}

#[test]
fn allocate_insufficient_alignment() {
    let mut storage = NonTrackingRange::<u8, u32>::new(42, Layout::new(1, 1));
    storage.allocate(1u8, Layout::new(4, 4)).unwrap_err();
}

// The handle always describes the entire fixed array, whatever smaller
// capacity was asked for.

#[test]
fn allocate_hands_out_whole_array() {
    let mut storage = NonTrackingRange::<u8, u32>::new(4, Layout::new(4, 4));
    let handle = storage.allocate(2u8, Layout::new(4, 4)).unwrap();

    assert_eq!(4, storage.capacity_of(handle));

    let evicted = storage.write(handle, 3, Some(11u32));
    assert_eq!(None, evicted);
    assert_eq!(Some(11), *storage.read(handle, 3));
}

// The reported maximum follows the byte budget of the embedded array, scaled
// by the element size and clamped to the capacity type.

#[test]
fn maximum_capacity_scales_with_element_size() {
    let storage = NonTrackingRange::<u8, u8>::new(42, Layout::new(1, 1));
    assert_eq!(42u8, storage.maximum_capacity(Layout::new(1, 1)));

    let wide = NonTrackingRange::<u8, u32>::new(40, Layout::new(4, 4));
    assert_eq!(10u8, wide.maximum_capacity(Layout::new(16, 4)));
}

// Fixed by construction: neither growth nor shrinking ever succeeds.

#[test]
fn grow_and_shrink_always_fail() {
    let mut storage = NonTrackingRange::<u8, u8>::new(4, Layout::new(1, 1));
    let handle = storage.allocate(2u8, Layout::new(1, 1)).unwrap();

    storage.try_grow(handle, 8u8, Layout::new(1, 1)).unwrap_err();
    storage.try_shrink(handle, 1u8, Layout::new(1, 1)).unwrap_err();
}
