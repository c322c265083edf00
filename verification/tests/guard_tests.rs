use yana_media::guard::SingleFlight;

#[test]
fn second_acquire_fails_while_held() {
    let mut lock = SingleFlight::new();
    assert!(lock.try_acquire());
    assert!(!lock.try_acquire());
    assert!(!lock.try_acquire());
}

#[test]
fn release_reopens_the_lock() {
    let mut lock = SingleFlight::new();
    assert!(lock.try_acquire());
    lock.release();
    assert!(lock.try_acquire());
    lock.release();
    assert!(lock.try_acquire());
}

#[test]
fn release_without_holding_leaves_lock_idle() {
    let mut lock = SingleFlight::new();
    lock.release();
    assert!(lock.try_acquire());
}
