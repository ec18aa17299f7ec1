use termcore::permits::PermitPool;

#[test]
fn pool_starts_full() {
    let pool = PermitPool::new(4);
    assert_eq!(pool.capacity, 4);
    assert_eq!(pool.available, 4);
}

#[test]
fn acquire_is_all_or_nothing() {
    let mut pool = PermitPool::new(3);
    assert!(pool.try_acquire(2));
    assert_eq!(pool.available, 1);
    // more than is available: refused, nothing taken
    assert!(!pool.try_acquire(2));
    assert_eq!(pool.available, 1);
    assert!(pool.try_acquire(1));
    assert_eq!(pool.available, 0);
}

#[test]
fn release_returns_exactly_what_was_taken() {
    let mut pool = PermitPool::new(5);
    assert!(pool.try_acquire(5));
    pool.release(2);
    assert_eq!(pool.available_permits(), 2);
    pool.release(3);
    assert_eq!(pool.available_permits(), 5);
}
