use termcore::sharedlock::SharedLock;
use termcore::sharedlock::MAX_READERS;

#[test]
fn shared_guards_coexist_up_to_max() {
    let mut lock: SharedLock<u32> = SharedLock::new(7);
    let mut guards = Vec::new();
    for _ in 0..MAX_READERS {
        let g = lock.read();
        assert!(g.is_some());
        guards.push(g.unwrap());
    }
    // the pool is exhausted: one more shared acquisition is refused
    assert!(lock.read().is_none());
    for g in guards {
        lock.release_shared(g);
    }
    assert_eq!(lock.pool.available, MAX_READERS);
}

#[test]
fn exclusive_excludes_everyone() {
    let mut lock: SharedLock<u32> = SharedLock::new(1);
    let shared = lock.read().unwrap();
    // a live shared guard blocks exclusive access
    assert!(lock.write().is_none());
    assert!(lock.exclusiveWrite().is_none());
    lock.release_shared(shared);

    let excl = lock.write().unwrap();
    // a live exclusive guard blocks every other acquisition
    assert!(lock.read().is_none());
    assert!(lock.write().is_none());
    assert!(lock.exclusiveWrite().is_none());
    lock.release_exclusive(excl);
    assert!(lock.read().is_some());
}

#[test]
fn guard_release_restores_permits() {
    let mut lock: SharedLock<i64> = SharedLock::new(-3);
    assert_eq!(lock.pool.available, MAX_READERS);
    // a mixed run of acquire/release cycles
    for i in 0..10 {
        if i % 2 == 0 {
            let g = lock.read().unwrap();
            assert_eq!(lock.pool.available, MAX_READERS - 1);
            lock.release_shared(g);
        } else {
            let g = lock.exclusiveWrite().unwrap();
            assert_eq!(lock.pool.available, 0);
            lock.release_exclusive(g);
        }
        assert_eq!(lock.pool.available, MAX_READERS);
    }
}

#[test]
fn guard_access_reaches_the_value() {
    let mut lock: SharedLock<String> = SharedLock::new(String::from("start"));
    let shared = lock.read().unwrap();
    assert_eq!(lock.borrow(&shared).as_str(), "start");
    lock.release_shared(shared);

    let excl = lock.write().unwrap();
    *lock.borrow_mut(&excl) = String::from("changed");
    lock.release_exclusive(excl);

    let shared = lock.read().unwrap();
    assert_eq!(lock.borrow(&shared).as_str(), "changed");
    lock.release_shared(shared);
}

#[test]
fn guard_permit_counts() {
    let mut lock: SharedLock<()> = SharedLock::new(());
    let shared = lock.read().unwrap();
    assert_eq!(shared.permits, 1);
    lock.release_shared(shared);
    let excl = lock.exclusiveWrite().unwrap();
    assert_eq!(excl.permits, MAX_READERS);
    lock.release_exclusive(excl);
}
