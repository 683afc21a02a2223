use shm_store::errors::StoreError;
use shm_store::layout::{plan_layout, REGION_SIZE};
use shm_store::protocol::{
    ready_before_polling, AttachAction, AttachEvent, AttachFsm, FlagWait, Role, WaitKind, WaitStep,
};
use shm_store::region::open_or_create;
use shm_store::store::{get_from_region, set_in_region};

// Two processes sharing one region, played out over an in-memory image: A
// creates the region "X" and writes 200; B opens "X" after seeing it
// initialized, reads 200, writes 57; A reads 57.
#[test]
fn two_process_handover() {
    let mut region = vec![0u8; REGION_SIZE];
    let mut flag = false;
    let layout = plan_layout(40).unwrap();

    // Process A creates "X" and is the owner.
    let mut a = AttachFsm::new();
    assert_eq!(
        a.step(AttachEvent::Opened(Role::Owner)),
        AttachAction::ConstructLock
    );
    // A constructs the lock in place, then publishes readiness.
    assert_eq!(a.step(AttachEvent::Constructed), AttachAction::PublishReady);
    flag = true;
    assert!(a.is_attached());

    // A stores 200.
    set_in_region(&mut region, &layout, 200u8, None).unwrap();

    // Process B asks first whether "X" is initialized: a bounded poll within
    // the wait window sees the owner's publication.
    assert_eq!(ready_before_polling(Role::Joiner), None);
    let mut query = FlagWait::new(WaitKind::Bounded);
    assert_eq!(query.observe(flag), WaitStep::Ready);

    // B attaches as a joiner and reattaches once the flag is seen true.
    let mut b = AttachFsm::new();
    assert_eq!(
        b.step(AttachEvent::Opened(Role::Joiner)),
        AttachAction::PollFlag
    );
    assert_eq!(
        b.step(AttachEvent::FlagSeen(flag)),
        AttachAction::ReattachLock
    );
    assert!(b.is_attached());

    // B reads what A stored, then overwrites it.
    let seen: u8 = get_from_region(&region, &layout, true);
    assert_eq!(seen, 200);
    set_in_region(&mut region, &layout, 57u8, None).unwrap();

    // A's next read sees B's value.
    let seen_by_a: u8 = get_from_region(&region, &layout, true);
    assert_eq!(seen_by_a, 57);
}

// The process that just created a region reports it uninitialized: there was
// nobody else to initialize it. A never-created name behaves the same way,
// since asking creates the region and makes the asker its owner.
#[test]
fn fresh_region_reports_uninitialized() {
    assert_eq!(ready_before_polling(Role::Owner), Some(false));

    // A joiner that polls out the whole window over a flag that stays false
    // gets a non-fatal "not initialized", not an error.
    let mut w = FlagWait::new(WaitKind::Bounded);
    let mut answer = None;
    loop {
        match w.observe(false) {
            WaitStep::Ready => {
                answer = Some(true);
                break;
            }
            WaitStep::GaveUp => {
                answer = Some(false);
                break;
            }
            WaitStep::Sleep => continue,
        }
    }
    assert_eq!(answer, Some(false));
}

// A link path that cannot be created (its directory does not exist) is not
// the joiner path: the attach fails with an error naming the region.
#[test]
fn unusable_region_name_is_a_fatal_region_error() {
    let name = "/this_directory_does_not_exist_anywhere/region";
    let r = open_or_create(name);
    assert!(matches!(r, Err(StoreError::Region { name: n, .. }) if n == name));
}

// The region mapper against the real shared-memory facility: creating a fresh
// name makes this process the owner; a second attach to the same name joins.
#[test]
fn live_region_create_then_open() {
    let name = "/tmp/shm_store_live_region_test";
    match open_or_create(name) {
        Ok((first, first_role)) => {
            assert_eq!(first_role, Role::Owner);
            let (second, second_role) =
                open_or_create(name).expect("opening an existing region");
            assert_eq!(second_role, Role::Joiner);
            drop(second);
            drop(first);
        }
        Err(e) => {
            // A machine without the shared-memory facility: the failure is
            // fatal and names the region, as the contract promises.
            assert!(matches!(e, StoreError::Region { name: n, .. } if n == name));
        }
    }
}
