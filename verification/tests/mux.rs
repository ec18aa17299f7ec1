use termcore::writemux::WriteMux;

#[test]
fn writes_concatenate_without_interleaving() {
    let mut mux = WriteMux::new();
    assert_eq!(mux.write(b"alpha "), Some(6));
    assert_eq!(mux.write(b"beta "), Some(5));
    assert_eq!(mux.write(b"gamma"), Some(5));
    assert_eq!(mux.drain(), b"alpha beta gamma".to_vec());
    // the device was drained; later writes start fresh
    assert_eq!(mux.write(b"x"), Some(1));
    assert_eq!(mux.drain(), b"x".to_vec());
}

#[test]
fn exclusive_reservation_blocks_regular_writers() {
    let mut mux = WriteMux::new();
    let guard = mux.acquire().expect("pool is full, acquire succeeds");
    // while the guard is live, regular writes and flushes are refused
    assert_eq!(mux.write(b"nope"), None);
    assert_eq!(mux.flush(), None);
    // and a second reservation is refused too
    assert!(mux.acquire().is_none());
    // the guard itself writes without re-acquiring
    assert_eq!(guard.write(&mut mux, b"mine "), 5);
    guard.flush(&mut mux);
    assert_eq!(guard.write(&mut mux, b"alone"), 5);
    mux.release(guard);
    // all permits restored: writers proceed again
    assert_eq!(mux.write(b"!"), Some(1));
    assert_eq!(mux.drain(), b"mine alone!".to_vec());
}

#[test]
fn flush_takes_and_returns_a_permit() {
    let mut mux = WriteMux::new();
    assert_eq!(mux.flush(), Some(()));
    assert_eq!(mux.pool.available, 1);
}

#[test]
fn bounded_capacity_variant() {
    let mut mux = WriteMux::with_capacity(4);
    assert_eq!(mux.pool.capacity, 4);
    assert_eq!(mux.write(b"a"), Some(1));
    let guard = mux.acquire().expect("every permit is free");
    assert_eq!(guard.permits, 4);
    assert_eq!(mux.write(b"b"), None);
    mux.release(guard);
    assert_eq!(mux.write(b"b"), Some(1));
    assert_eq!(mux.drain(), b"ab".to_vec());
}

#[test]
fn exclusive_waits_for_in_flight_writers() {
    let mut mux = WriteMux::with_capacity(3);
    let p1 = mux.begin_write().expect("budget has room");
    let p2 = mux.begin_write().expect("budget has room");
    // two regular writers are in flight: the full reservation is refused
    assert!(mux.acquire().is_none());
    assert_eq!(mux.write_with(&p1, b"one "), 4);
    assert_eq!(mux.write_with(&p2, b"two"), 3);
    mux.end_write(p1);
    assert!(mux.acquire().is_none());
    mux.end_write(p2);
    // every writer released: the reservation goes through
    let guard = mux.acquire().expect("all permits free");
    mux.release(guard);
    assert_eq!(mux.drain(), b"one two".to_vec());
}

#[test]
fn budget_is_bounded() {
    let mut mux = WriteMux::with_capacity(2);
    let p1 = mux.begin_write().unwrap();
    let p2 = mux.begin_write().unwrap();
    // the budget is spent: a third writer is refused
    assert!(mux.begin_write().is_none());
    assert_eq!(mux.write(b"x"), None);
    mux.end_write(p1);
    assert_eq!(mux.write(b"x"), Some(1));
    mux.end_write(p2);
}
