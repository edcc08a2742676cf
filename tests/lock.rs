use cspice::SpiceLock;

#[test]
fn first_acquisition_sets_library_up_once() {
    let mut lock = SpiceLock::new();
    let first = lock.try_acquire(7).unwrap();
    assert!(first.first_use);
    assert_eq!(first.spice.thread(), 7);
    lock.release(first.spice);
    let again = lock.try_acquire(8).unwrap();
    assert!(!again.first_use);
    assert_eq!(again.spice.thread(), 8);
}

#[test]
fn second_thread_is_refused_while_first_holds() {
    let mut lock = SpiceLock::new();
    let held = lock.try_acquire(1).unwrap();
    assert!(!lock.is_available_to(2));
    assert!(lock.try_acquire(2).is_err());
    assert!(lock.is_held_by(&held.spice));
    lock.release(held.spice);
    assert!(lock.is_available_to(2));
    let other = lock.try_acquire(2).unwrap();
    assert!(lock.try_acquire(1).is_err());
    lock.release(other.spice);
}

#[test]
fn lock_is_reentrant_for_its_holder() {
    let mut lock = SpiceLock::new();
    let outer = lock.try_acquire(3).unwrap();
    let inner = lock.try_acquire(3).unwrap();
    assert!(!inner.first_use);
    lock.release(inner.spice);
    assert!(lock.try_acquire(4).is_err());
    assert!(lock.is_held_by(&outer.spice));
    lock.release(outer.spice);
    assert!(lock.try_acquire(4).is_ok());
}

#[test]
fn holders_never_overlap() {
    // A shared count of holders, raised on each first acquisition and lowered on each last
    // release, over an interleaving of three threads.
    let mut lock = SpiceLock::new();
    let mut holders = 0;
    let mut held: Vec<(u64, cspice::Spice)> = Vec::new();
    let script: [(u64, bool); 12] = [
        (1, true), (2, true), (1, true), (3, true), (1, false), (2, true),
        (1, false), (2, true), (3, true), (2, false), (2, false), (3, true),
    ];
    for (thread, acquire) in script {
        if acquire {
            let was_free = lock.is_available_to(thread) && held.is_empty();
            if let Ok(access) = lock.try_acquire(thread) {
                if was_free {
                    holders += 1;
                }
                held.push((thread, access.spice));
            }
        } else if let Some(i) = held.iter().rposition(|(t, _)| *t == thread) {
            let (_, spice) = held.remove(i);
            lock.release(spice);
            if held.is_empty() {
                holders -= 1;
            }
        }
        assert!(holders <= 1);
        assert!(held.iter().all(|(t, _)| *t == held[0].0));
    }
}

#[test]
fn lock_error_message() {
    let mut lock = SpiceLock::new();
    let _held = lock.try_acquire(1).unwrap();
    let error = lock.try_acquire(2).unwrap_err();
    assert!(error.message().contains("already in use by another thread"));
}

#[test]
fn can_nest_on_fresh_lock() {
    let lock = SpiceLock::new();
    assert!(lock.can_nest());
}

#[test]
fn scoped_work_runs_under_token_and_releases() {
    let mut lock = SpiceLock::new();
    let first = lock.try_with_spice_lock(5, |spice, first_use| (spice.thread(), first_use));
    assert_eq!(first.unwrap(), (5, true));
    assert!(lock.is_available_to(6));
    let second = lock.with_spice_lock(6, |spice, first_use| (spice.thread(), first_use));
    assert_eq!(second, (6, false));
}

#[test]
fn scoped_work_is_refused_while_other_thread_holds() {
    let mut lock = SpiceLock::new();
    let held = lock.try_acquire(1).unwrap();
    let mut ran = false;
    let result = lock.try_with_spice_lock(2, |_, _| {
        ran = true;
    });
    assert!(result.is_err());
    assert!(!ran);
    let nested = lock.try_with_spice_lock(1, |spice, first_use| (spice.thread(), first_use));
    assert_eq!(nested.unwrap(), (1, false));
    assert!(lock.is_held_by(&held.spice));
    lock.release(held.spice);
}
