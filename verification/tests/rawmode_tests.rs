use termcore::rawmode::{begin_session, end_session, raw_entry_mode, RawModeGuard};

#[test]
fn raw_entry_mode_clears_only_disabled_flags() {
    assert_eq!(raw_entry_mode(0b1111, 0b0101), 0b1010);
    assert_eq!(raw_entry_mode(0b1010, 0b0101), 0b1010);
    assert_eq!(raw_entry_mode(0, 0b0101), 0);
    assert_eq!(raw_entry_mode(u32::MAX, 0), u32::MAX);
}

#[test]
fn session_restores_mode_observed_before_acquire() {
    let observed_before: u32 = 0o1234567;
    let disable: u32 = 0b1_0111;
    let (mut guard, raw) = begin_session(observed_before, disable);
    assert_eq!(raw & disable, 0);
    // the device now runs in raw mode; tear the session down
    let restored = end_session(&mut guard, raw);
    assert_eq!(restored, observed_before);
}

#[test]
fn release_happens_exactly_once() {
    let mut g = RawModeGuard::acquire(42);
    assert_eq!(g.release(), Some(42));
    assert_eq!(g.release(), None);
    assert_eq!(g.release(), None);
}

#[test]
fn double_teardown_leaves_device_alone() {
    let (mut guard, raw) = begin_session(7, 1);
    let restored = end_session(&mut guard, raw);
    assert_eq!(restored, 7);
    // a second teardown must not re-apply anything: the device keeps
    // whatever mode it has now
    let current: u32 = 99;
    assert_eq!(end_session(&mut guard, current), current);
}

fn faulty_step(fail: bool) -> Result<(), ()> {
    if fail { Err(()) } else { Ok(()) }
}

#[test]
fn error_path_teardown_restores_device_state() {
    // a session whose body fails partway through still restores the mode
    // observed before acquire
    let observed_before: u32 = 0xdead;
    let mut device_mode = observed_before;
    let (mut guard, raw) = begin_session(device_mode, 0xff);
    device_mode = raw;
    let outcome = (|| -> Result<(), ()> {
        faulty_step(false)?;
        faulty_step(true)?;
        faulty_step(false)
    })();
    assert!(outcome.is_err());
    device_mode = end_session(&mut guard, device_mode);
    assert_eq!(device_mode, observed_before);
}
