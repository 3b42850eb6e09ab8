use storage_poc::layout::Layout;
use storage_poc::traits::Capacity;

#[test]
fn fits_checks_both_size_and_alignment() {
    let small = Layout::new(2, 1);
    let big = Layout::new(8, 8);
    let wide = Layout::new(2, 4);

    assert!(small.fits(&big));
    assert!(!big.fits(&small));
    assert!(!wide.fits(&Layout::new(8, 2)));
    assert!(wide.fits(&Layout::new(2, 4)));
}

#[test]
fn array_layout_multiplies_and_checks_overflow() {
    let elem = Layout::new(4, 4);

    let arr = elem.array(3).unwrap();
    assert_eq!(12, arr.size);
    assert_eq!(4, arr.align);

    let zero = elem.array(0).unwrap();
    assert_eq!(0, zero.size);

    assert!(Layout::new(usize::MAX, 1).array(2).is_none());
}

#[test]
fn capacity_conversions_round_trip_and_check_bounds() {
    assert_eq!(Some(255u8), <u8 as Capacity>::from_usize(255));
    assert_eq!(None, <u8 as Capacity>::from_usize(256));
    assert_eq!(255, <u8 as Capacity>::max().into_usize());

    assert_eq!(Some(70_000u32), <u32 as Capacity>::from_usize(70_000));
    assert_eq!(None, <u16 as Capacity>::from_usize(70_000));

    assert_eq!(Some(7usize), <usize as Capacity>::from_usize(7));
    assert_eq!(usize::MAX, <usize as Capacity>::max().into_usize());
}
