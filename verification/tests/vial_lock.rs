use rmk::vial_lock::VialLock;

#[test]
fn vial_unlocks_only_while_unlocking_with_all_keys_held() {
    let mut lock = VialLock::new(vec![(0, 0), (1, 2)]);
    assert!(!lock.is_unlocked());
    // Not unlocking: holding the keys does nothing.
    assert_eq!(lock.check_unlock(&vec![true, true]), 0);
    assert!(!lock.is_unlocked());

    lock.unlocking(1000);
    assert!(lock.is_unlocking(1050));
    assert_eq!(lock.check_unlock(&vec![true, false]), 1);
    assert!(!lock.is_unlocked());
    assert_eq!(lock.check_unlock(&vec![true, true]), 0);
    assert!(lock.is_unlocked());

    lock.lock();
    assert!(!lock.is_unlocked());
}

#[test]
fn vial_unlock_lapses_without_polls() {
    let mut lock = VialLock::new(vec![(0, 0)]);
    lock.unlocking(1000);
    assert!(lock.is_unlocking(1100));
    assert!(!lock.is_unlocking(1101));
    assert_eq!(lock.check_unlock(&vec![true]), 0);
    assert!(!lock.is_unlocked());
}

#[test]
fn vial_without_unlock_keys_never_unlocks() {
    let mut lock = VialLock::new(vec![]);
    lock.unlocking(0);
    assert_eq!(lock.check_unlock(&vec![]), 1);
    assert!(!lock.is_unlocked());
}
