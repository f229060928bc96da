use libadalang::lifecycle::{HandleEvent, Ledger, Phase};

#[test]
fn releases_balance_allocation_and_clones() {
    let mut ledger = Ledger::new();
    assert_eq!(ledger.phase(), Phase::Uninitialized);
    assert!(ledger.record(HandleEvent::Allocate));
    assert!(ledger.record(HandleEvent::Clone));
    assert!(ledger.record(HandleEvent::Clone));
    assert_eq!(ledger.increments(), 3);
    assert!(ledger.record(HandleEvent::Release));
    assert!(ledger.record(HandleEvent::Release));
    assert_eq!(ledger.phase(), Phase::Allocated);
    assert!(!ledger.destroyed());
    assert!(ledger.record(HandleEvent::Release));
    assert_eq!(ledger.phase(), Phase::Released);
    assert_eq!(ledger.decrements(), ledger.increments());
    assert!(ledger.destroyed());
}

#[test]
fn a_second_release_of_the_last_reference_is_refused() {
    let mut ledger = Ledger::new();
    assert!(ledger.record(HandleEvent::Allocate));
    assert!(ledger.record(HandleEvent::Release));
    assert!(!ledger.record(HandleEvent::Release));
    assert_eq!(ledger.decrements(), 1);
    assert!(!ledger.record(HandleEvent::Clone));
    assert!(!ledger.record(HandleEvent::Callback));
    assert!(!ledger.record(HandleEvent::Allocate));
    assert_eq!(ledger.increments(), 1);
}

#[test]
fn nothing_is_owed_before_allocation() {
    let mut ledger = Ledger::new();
    assert!(!ledger.record(HandleEvent::Release));
    assert!(!ledger.record(HandleEvent::Clone));
    assert!(!ledger.record(HandleEvent::Callback));
    assert_eq!(ledger.increments(), 0);
    assert_eq!(ledger.decrements(), 0);
    assert_eq!(ledger.phase(), Phase::Uninitialized);
}

#[test]
fn destroy_runs_once_however_many_callbacks_fired() {
    for fired in [0u64, 1, 17] {
        let mut ledger = Ledger::new();
        assert!(ledger.record(HandleEvent::Allocate));
        for _ in 0..fired {
            assert!(ledger.record(HandleEvent::Callback));
            assert!(!ledger.destroyed());
        }
        assert_eq!(ledger.callbacks(), fired);
        assert!(ledger.record(HandleEvent::Release));
        assert!(ledger.destroyed());
        assert!(!ledger.record(HandleEvent::Release));
        assert!(ledger.destroyed());
    }
}
