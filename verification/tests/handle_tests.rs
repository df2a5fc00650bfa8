use osx_system_tray::error::Error;
use osx_system_tray::handle::SafeId;

#[test]
fn with_lock_hands_the_address_to_the_operation() {
    let id = SafeId::new(0x7000_1000);
    assert_eq!(id.with_lock(|address| address), Ok(0x7000_1000));
    assert_eq!(id.with_lock(|address| address + 1), Ok(0x7000_1001));
}

#[test]
fn with_lock_returns_what_the_operation_returns_even_a_failure() {
    let id = SafeId::new(7);
    let failed: Result<Result<(), Error>, Error> = id.with_lock(|_| Err(Error::Codec));
    assert_eq!(failed, Ok(Err(Error::Codec)));
}

#[test]
fn with_lock_releases_the_lock_on_return() {
    let id = SafeId::new(7);
    assert_eq!(id.with_lock(|address| address * 2), Ok(14));
    let failed: Result<Result<(), Error>, Error> = id.with_lock(|_| Err(Error::IO));
    assert_eq!(failed, Ok(Err(Error::IO)));
    // A lock still held here would block this call for ever.
    assert_eq!(id.with_lock(|address| address * 3), Ok(21));
}

#[test]
fn a_clone_refers_to_the_same_object() {
    let id = SafeId::new(99);
    let other = id.clone();
    assert_eq!(other.with_lock(|address| address), Ok(99));
    assert_eq!(id.with_lock(|address| address), Ok(99));
}

#[test]
fn clones_take_turns_on_one_lock() {
    let id = SafeId::new(5);
    let other = id.clone();
    let mut sum = 0;
    for n in 0..100 {
        let mine = if n % 2 == 0 { &id } else { &other };
        sum += mine.with_lock(|address| address + n).unwrap_or(0);
    }
    assert_eq!(sum, 5 * 100 + 4950);
}

#[test]
fn under_a_held_lock_the_operation_runs() {
    let id = SafeId::new(31);
    let lock = std::sync::Mutex::new(());
    let held = lock.lock().ok();
    assert!(held.is_some());
    assert_eq!(id.under(held, |address| address + 1), Ok(32));
    // The lock was released when the operation had returned.
    assert!(lock.try_lock().is_ok());
}

#[test]
fn under_a_poisoned_lock_the_operation_does_not_run() {
    let id = SafeId::new(31);
    let mut ran = false;
    let result = id.under(None, |address| {
        ran = true;
        address
    });
    assert_eq!(result, Err(Error::PoisonError));
    assert!(!ran);
    // The object's own lock is untouched by that.
    assert_eq!(id.with_lock(|address| address), Ok(31));
}
