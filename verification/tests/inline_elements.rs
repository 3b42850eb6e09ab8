use storage_poc::inline::{NonTrackingElement, SingleElement, TrackingElement};
use storage_poc::layout::Layout;
use storage_poc::traits::{create_get_round_trip, failed_create_round_trip, ElementStorage};

// inline::SingleElement

#[test]
fn single_element_new_unconditional_success() {
    SingleElement::<u8>::new(Layout::new(1, 1));
}

#[test]
fn single_element_create_success() {
    let mut storage = SingleElement::<u8>::new(Layout::new(2, 1));
    storage.create(1u8, Layout::new(1, 1)).unwrap();
}

#[test]
fn single_element_create_insufficient_size() {
    let mut storage = SingleElement::<[u8; 3]>::new(Layout::new(1, 1));
    storage.create([1u8, 2, 3], Layout::new(3, 1)).unwrap_err();
}

#[test]
fn single_element_create_insufficient_alignment() {
    let mut storage = SingleElement::<[u32; 1]>::new(Layout::new(32, 1));
    storage.create([1u32], Layout::new(4, 4)).unwrap_err();
}

#[test]
fn single_element_coerce() {
    let mut storage = SingleElement::<[u8; 2]>::new(Layout::new(32, 1));

    let handle = storage.create([1u8, 2u8], Layout::new(2, 1)).unwrap();

    let handle = storage.coerce(handle, 2);

    storage.destroy(handle);
}

// inline::NonTrackingElement

#[test]
fn non_tracking_element_new_unconditional_success() {
    NonTrackingElement::<u8>::new(Layout::new(1, 1));
}

#[test]
fn non_tracking_element_create_success() {
    let mut storage = NonTrackingElement::<u8>::new(Layout::new(2, 1));
    storage.create(1u8, Layout::new(1, 1)).unwrap();
}

#[test]
fn non_tracking_element_create_insufficient_size() {
    let mut storage = NonTrackingElement::<[u8; 3]>::new(Layout::new(1, 1));
    storage.create([1u8, 2, 3], Layout::new(3, 1)).unwrap_err();
}

#[test]
fn non_tracking_element_create_insufficient_alignment() {
    let mut storage = NonTrackingElement::<[u32; 1]>::new(Layout::new(32, 1));
    storage.create([1u32], Layout::new(4, 4)).unwrap_err();
}

#[test]
fn non_tracking_element_coerce() {
    let mut storage = NonTrackingElement::<[u8; 2]>::new(Layout::new(32, 1));

    let handle = storage.create([1u8, 2u8], Layout::new(2, 1)).unwrap();

    let handle = storage.coerce(handle, 2);

    storage.destroy(handle);
}

// The two round-trip facts, exercised through the functions that state them
// for every backend: a stored value reads back, and a refused value comes
// back whole.

#[test]
fn round_trips_on_concrete_backends() {
    let mut storage = TrackingElement::<String>::new(2, Layout::new(24, 8));
    let got = create_get_round_trip(&mut storage, "kept".to_string(), Layout::new(24, 8));
    assert_eq!("kept", got);

    let mut tight = SingleElement::<String>::new(Layout::new(8, 8));
    let back = failed_create_round_trip(&mut tight, "refused".to_string(), Layout::new(24, 8));
    assert_eq!("refused", back);
}

// A failed create hands the exact value back and the storage accepts it again
// unchanged.

#[test]
fn create_failure_returns_value() {
    let mut storage = SingleElement::<String>::new(Layout::new(8, 8));
    let text = "all of it".to_string();

    let back = storage.create(text.clone(), Layout::new(24, 8)).unwrap_err();
    assert_eq!(text, back);

    let handle = storage.create(back, Layout::new(8, 8)).unwrap();
    assert_eq!(&text, storage.get(handle));
}
