//! The raw-mode guard: a scoped-acquisition model of the process-wide
//! terminal input mode. The guard captures the device's original mode when
//! a session begins and hands it back for restoration exactly once,
//! whichever path control takes out of the session.
//!
//! The device mode is carried as a plain flag word; the platform glue that
//! actually queries and sets the device around these functions lives
//! outside the library.

use vstd::prelude::*;

verus! {

/// The mode a raw session applies: the original mode with the given
/// line-discipline flags (echo, canonical input, signals, extended
/// processing) switched off.
pub open spec fn spec_raw_mode(orig: u32, disable: u32) -> u32 {
    orig & !disable
}

/// Compute the mode word a raw session runs under: every flag of
/// `disable` is cleared, every other flag keeps its original value.
pub fn raw_entry_mode(orig: u32, disable: u32) -> (m: u32)
    ensures
        m == spec_raw_mode(orig, disable),
        m & disable == 0,
        m & !disable == orig & !disable,
{
    proof {
        assert((orig & !disable) & disable == 0 && (orig & !disable) & !disable == orig & !disable)
            by (bit_vector);
    }
    orig & !disable
}

/// Captures a device's original mode at session start and releases it
/// exactly once. Idempotent-safe: releasing twice, or releasing after a
/// scope-exit release, hands back nothing the second time.
pub struct RawModeGuard {
    orig: u32,
    released: bool,
}

impl RawModeGuard {
    /// The mode observed immediately before the session began.
    pub closed spec fn spec_orig(self) -> u32 {
        self.orig
    }

    /// Whether the original mode was already handed back.
    pub closed spec fn is_released(self) -> bool {
        self.released
    }

    /// The guard as `acquire` builds it for original mode `orig`.
    pub closed spec fn spec_acquired(orig: u32) -> RawModeGuard {
        RawModeGuard { orig, released: false }
    }

    /// What a release hands back: the original mode the first time,
    /// nothing afterwards.
    pub open spec fn spec_release_result(self) -> Option<u32> {
        if self.is_released() {
            None
        } else {
            Some(self.spec_orig())
        }
    }

    /// Begin guarding a device whose current mode is `orig`.
    pub fn acquire(orig: u32) -> (g: RawModeGuard)
        ensures
            g == RawModeGuard::spec_acquired(orig),
            g.spec_orig() == orig,
            !g.is_released(),
    {
        RawModeGuard { orig, released: false }
    }

    /// Hand back the mode to restore. Returns the original mode on the
    /// first call and nothing on every later call; the caller applies the
    /// returned mode to the device.
    pub fn release(&mut self) -> (r: Option<u32>)
        ensures
            r == old(self).spec_release_result(),
            final(self).spec_orig() == old(self).spec_orig(),
            final(self).is_released(),
    {
        if self.released {
            None
        } else {
            self.released = true;
            Some(self.orig)
        }
    }
}

/// Begin a raw session on a device whose current mode is `device_mode`:
/// returns the guard holding the original mode and the raw mode to apply
/// to the device.
pub fn begin_session(device_mode: u32, disable: u32) -> (r: (RawModeGuard, u32))
    ensures
        r.0 == RawModeGuard::spec_acquired(device_mode),
        r.0.spec_orig() == device_mode,
        !r.0.is_released(),
        r.1 == spec_raw_mode(device_mode, disable),
{
    let raw = raw_entry_mode(device_mode, disable);
    (RawModeGuard::acquire(device_mode), raw)
}

/// End a raw session: given the device's current mode, return the mode the
/// device must be set to. The first release restores the original mode;
/// any later release leaves the device as it is.
pub fn end_session(g: &mut RawModeGuard, device_mode: u32) -> (m: u32)
    ensures
        m == spec_end_mode(*old(g), device_mode),
        !old(g).is_released() ==> m == old(g).spec_orig(),
        old(g).is_released() ==> m == device_mode,
        final(g).spec_orig() == old(g).spec_orig(),
        final(g).is_released(),
{
    match g.release() {
        Some(orig) => orig,
        None => device_mode,
    }
}

/// The mode the device is set to when a session ends: the guard's original
/// mode on the first release, the device's current mode afterwards.
pub open spec fn spec_end_mode(g: RawModeGuard, device_mode: u32) -> u32 {
    match g.spec_release_result() {
        Some(orig) => orig,
        None => device_mode,
    }
}

/// Restoration round trip: ending a session whose guard was acquired on
/// mode `m` sets the device back to exactly `m`, whatever mode `mid` the
/// device showed in between and whatever flags the session disabled.
pub proof fn lemma_session_restores(m: u32, disable: u32, mid: u32)
    ensures
        spec_end_mode(RawModeGuard::spec_acquired(m), mid) == m,
        !RawModeGuard::spec_acquired(m).is_released(),
{
}

/// Release happens exactly once: a released guard hands back nothing, so
/// the original mode is never applied twice, on any path.
pub proof fn lemma_release_exactly_once(g: RawModeGuard)
    requires
        g.is_released(),
    ensures
        g.spec_release_result() is None,
        forall|mid: u32| #[trigger] spec_end_mode(g, mid) == mid,
{
}

} // verus!
