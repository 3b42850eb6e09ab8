use storage_poc::inline::TrackingElement;
use storage_poc::layout::Layout;
use storage_poc::traits::ElementStorage;

#[test]
fn tracking_elements_new_unconditional_success() {
    TrackingElement::<u8>::new(5, Layout::new(1, 1));
}

#[test]
fn tracking_elements_create_success() {
    let mut storage = TrackingElement::<u8>::new(5, Layout::new(1, 1));
    let handle = storage.create(4u8, Layout::new(1, 1)).unwrap();
    let element = storage.get(handle);

    assert_eq!(4, *element);
}

#[test]
fn tracking_elements_create_insufficient_alignment() {
    let mut storage = TrackingElement::<[u16; 2]>::new(5, Layout::new(4, 1));
    storage.create([1u16, 2], Layout::new(4, 2)).unwrap_err();
}

#[test]
fn tracking_elements_create_insufficient_size() {
    let mut storage = TrackingElement::<[u8; 3]>::new(5, Layout::new(2, 1));
    storage.create([1u8, 2, 3], Layout::new(3, 1)).unwrap_err();
}

#[test]
fn create_insufficient_capacity() {
    let victim = "Hello, World".to_string();
    let mut storage = TrackingElement::<String>::new(1, Layout::new(24, 8));

    for _ in 0..2 {
        let handle = storage.create(victim.clone(), Layout::new(24, 8)).unwrap();
        let element = storage.get(handle);
        assert_eq!(&victim, element);

        storage.create(victim.clone(), Layout::new(24, 8)).unwrap_err();
        storage.destroy(handle);
    }
}

#[test]
fn get_accross_moves() {
    let mut storage = TrackingElement::<u8>::new(5, Layout::new(1, 1));

    let h1 = storage.create(1u8, Layout::new(1, 1)).unwrap();
    let h2 = storage.create(2u8, Layout::new(1, 1)).unwrap();
    let h3 = storage.create(3u8, Layout::new(1, 1)).unwrap();

    let storage = storage;

    assert_eq!(1, *storage.get(h1));
    assert_eq!(2, *storage.get(h2));
    assert_eq!(3, *storage.get(h3));
}

#[test]
fn coerce_unsize() {
    let mut storage = TrackingElement::<[u8; 2]>::new(5, Layout::new(2, 1));
    let handle = storage.create([1, 2], Layout::new(2, 1)).unwrap();

    let handle = storage.coerce(handle, 2);
    let element = storage.get(handle);

    assert_eq!(&[1, 2], element);
}

// Reuse is strictly LIFO: the slot released last is the slot handed out
// next.

#[test]
fn lifo_reuse() {
    let mut storage = TrackingElement::<u8>::new(3, Layout::new(1, 1));
    let l = Layout::new(1, 1);

    let h0 = storage.create(1u8, l).unwrap();
    let h1 = storage.create(2u8, l).unwrap();

    storage.destroy(h0);
    let h2 = storage.create(3u8, l).unwrap();
    assert_eq!(h0.index, h2.index);

    storage.destroy(h1);
    storage.destroy(h2);
    let h3 = storage.create(4u8, l).unwrap();
    assert_eq!(h2.index, h3.index);
}

// Exhausting all slots, releasing them in a scrambled order, and exhausting
// them again: the free list restores the full capacity whatever the order.

#[test]
fn recycle_capacity_scrambled_order() {
    let mut storage = TrackingElement::<u8>::new(4, Layout::new(1, 1));

    let handles = storage.recycle_capacity(&vec![2, 0, 3, 1], Layout::new(1, 1));

    assert_eq!(4, handles.len());
}

#[test]
fn recycle_in_any_order() {
    let mut storage = TrackingElement::<u8>::new(3, Layout::new(1, 1));
    let l = Layout::new(1, 1);

    let h0 = storage.create(10u8, l).unwrap();
    let h1 = storage.create(11u8, l).unwrap();
    let h2 = storage.create(12u8, l).unwrap();
    storage.create(13u8, l).unwrap_err();

    storage.destroy(h1);
    storage.destroy(h2);
    storage.destroy(h0);

    let h0 = storage.create(20u8, l).unwrap();
    let h1 = storage.create(21u8, l).unwrap();
    let h2 = storage.create(22u8, l).unwrap();
    storage.create(23u8, l).unwrap_err();

    assert_eq!(20, *storage.get(h0));
    assert_eq!(21, *storage.get(h1));
    assert_eq!(22, *storage.get(h2));
}
