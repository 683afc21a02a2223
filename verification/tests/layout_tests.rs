use shm_store::layout::{plan_layout, value_fits, FLAG_RESERVED, REGION_SIZE};

#[test]
fn layout_constants() {
    assert_eq!(REGION_SIZE, 4096);
    assert_eq!(FLAG_RESERVED, 8);
}

#[test]
fn layout_for_typical_lock() {
    let l = plan_layout(40).unwrap();
    assert_eq!(l.lock_bytes, 40);
    assert_eq!(l.value_offset, 48);
    assert_eq!(l.value_capacity, 4048);
}

#[test]
fn layout_tightest_fit() {
    let l = plan_layout(4088).unwrap();
    assert_eq!(l.value_offset, 4096);
    assert_eq!(l.value_capacity, 0);
}

#[test]
fn layout_overrun_is_rejected() {
    assert!(plan_layout(4089).is_none());
    assert!(plan_layout(usize::MAX).is_none());
}

#[test]
fn value_fits_checks_capacity() {
    let l = plan_layout(40).unwrap();
    assert!(value_fits(&l, 1));
    assert!(value_fits(&l, 4048));
    assert!(!value_fits(&l, 4049));
}
