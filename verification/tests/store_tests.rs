use shm_store::codec::{BytePair, FixedBytes};
use shm_store::errors::StoreError;
use shm_store::layout::{plan_layout, REGION_SIZE};
use shm_store::store::{
    get_from_region, read_outcome, read_value_bytes, set_in_region, write_request,
    write_value_bytes,
};

#[test]
fn read_without_lock_returns_default_not_error() {
    // A failed acquisition is swallowed: the default value comes back.
    let v: u8 = read_outcome(None);
    assert_eq!(v, 0);
    let p: BytePair = read_outcome(None);
    assert_eq!(p, BytePair { first: 0, second: 0 });
}

#[test]
fn read_under_lock_decodes_bytes() {
    let bytes = [200u8];
    let v: u8 = read_outcome(Some(&bytes));
    assert_eq!(v, 200);
}

#[test]
fn write_without_lock_is_an_error() {
    // The same failed acquisition that a read swallows fails a write.
    let r = write_request(57u8, Some(String::from("simulated failure")));
    assert!(
        matches!(r, Err(StoreError::LockAcquisition { cause }) if cause == "simulated failure")
    );
}

#[test]
fn write_under_lock_encodes_value() {
    let r = write_request(57u8, None);
    assert_eq!(r.unwrap(), vec![57u8]);
}

#[test]
fn value_bytes_round_trip_in_region() {
    let mut region = vec![0u8; REGION_SIZE];
    write_value_bytes(&mut region, 48, &[200, 57]);
    assert_eq!(read_value_bytes(&region, 48, 2), vec![200, 57]);
    // The rest of the region is untouched.
    assert_eq!(region[47], 0);
    assert_eq!(region[50], 0);
}

#[test]
fn set_then_get_round_trip_boundaries() {
    let layout = plan_layout(40).unwrap();
    let mut region = vec![0u8; REGION_SIZE];
    for v in [0u8, 255u8] {
        set_in_region(&mut region, &layout, v, None).unwrap();
        let back: u8 = get_from_region(&region, &layout, true);
        assert_eq!(back, v);
    }
}

#[test]
fn set_under_lock_failure_propagates_and_leaves_region() {
    let layout = plan_layout(40).unwrap();
    let mut region = vec![0u8; REGION_SIZE];
    set_in_region(&mut region, &layout, 200u8, None).unwrap();
    let before = region.clone();
    let r = set_in_region(&mut region, &layout, 57u8, Some(String::from("busy")));
    assert!(matches!(r, Err(StoreError::LockAcquisition { .. })));
    assert_eq!(region, before);
    // And the read-side fallback under the same failure.
    let v: u8 = get_from_region(&region, &layout, false);
    assert_eq!(v, 0);
}

#[test]
fn serialized_writes_leave_exactly_one_value() {
    // Writers take the lock in turn; the bytes afterwards are the last
    // writer's encoding entire, never a mix.
    let layout = plan_layout(40).unwrap();
    let mut region = vec![0u8; REGION_SIZE];
    let writes = [
        BytePair { first: 1, second: 2 },
        BytePair { first: 3, second: 4 },
        BytePair { first: 5, second: 6 },
    ];
    for w in writes {
        set_in_region(&mut region, &layout, w, None).unwrap();
    }
    let last: BytePair = get_from_region(&region, &layout, true);
    assert!(writes.contains(&last));
    assert_eq!(last, BytePair { first: 5, second: 6 });
}
