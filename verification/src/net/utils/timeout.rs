//! Timeout provider for various network protocols.

use vstd::prelude::*;

verus! {

/// Nanoseconds in one millisecond.
pub const NANOS_PER_MILLI: u64 = 1_000_000;

/// Clock reading at which a timeout armed at `now` with a delay of
/// `delay_ms` milliseconds expires. An instant beyond the range of the clock
/// is held as the largest reading, which the clock never passes.
pub open spec fn deadline_after(now: u64, delay_ms: u64) -> u64 {
    if now + delay_ms * NANOS_PER_MILLI <= u64::MAX {
        (now + delay_ms * NANOS_PER_MILLI) as u64
    } else {
        u64::MAX
    }
}

/// A timeout with the given deadline has not expired at clock reading `now`.
/// Without a deadline it never expires.
pub open spec fn unexpired_at(deadline: Option<u64>, now: u64) -> bool {
    match deadline {
        Some(t) => now <= t,
        None => true,
    }
}

/// Reads `time::precise_time_ns`, a high-resolution counter in nanoseconds
/// since an unspecified epoch. Nothing is claimed of the value.
#[verifier::external_body]
fn precise_time_ns() -> (now: u64) {
    time::precise_time_ns()
}

/// Timeout provider for various network protocols.
#[derive(Debug)]
pub struct Timeout {
    timeout: Option<u64>,
}

impl View for Timeout {
    type V = Option<u64>;

    /// The clock reading at which the timeout expires, if it is armed.
    closed spec fn view(&self) -> Option<u64> {
        self.timeout
    }
}

impl Timeout {
    /// Create a new instance of Timeout. The initial state is reset.
    pub fn new() -> (res: Timeout)
        ensures
            res@ is None,
    {
        Timeout { timeout: None }
    }

    /// Clear the timeout (i.e. the check() method will always return true
    /// until the timeout is set).
    pub fn clear(&mut self) -> (ret: &mut Self)
        ensures
            ret@ is None,
            *final(self) == *final(ret),
    {
        self.timeout = None;
        self
    }

    /// Set the timeout as seen from the clock reading `now`.
    ///
    /// The timeout will expire after a specified delay in milliseconds.
    pub fn set_at(&mut self, now: u64, delay_ms: u64) -> (ret: &mut Self)
        ensures
            ret@ == Some(deadline_after(now, delay_ms)),
            *final(self) == *final(ret),
    {
        let deadline = match delay_ms.checked_mul(NANOS_PER_MILLI) {
            Some(delay_ns) => match now.checked_add(delay_ns) {
                Some(t) => t,
                None => u64::MAX,
            },
            None => u64::MAX,
        };
        self.timeout = Some(deadline);
        self
    }

    /// Check if the timeout has already expired at the clock reading `now`.
    ///
    /// The method returns false if the timeout has already expired, otherwise
    /// true is returned.
    pub fn check_at(&self, now: u64) -> (unexpired: bool)
        ensures
            unexpired == unexpired_at(self@, now),
    {
        match self.timeout {
            Some(t) => now <= t,
            None => true,
        }
    }

    /// Set the timeout.
    ///
    /// The timeout will expire after a specified delay in milliseconds,
    /// counted from the clock reading taken by this call.
    pub fn set(&mut self, delay_ms: u64) -> (ret: &mut Self)
        ensures
            exists|now: u64| ret@ == Some(#[trigger] deadline_after(now, delay_ms)),
            *final(self) == *final(ret),
    {
        let now = precise_time_ns();
        self.set_at(now, delay_ms)
    }

    /// Check if the timeout has already expired.
    ///
    /// The method returns false if the timeout has already expired, otherwise
    /// true is returned.
    pub fn check(&self) -> (unexpired: bool)
        ensures
            exists|now: u64| unexpired == #[trigger] unexpired_at(self@, now),
            self@ is None ==> unexpired,
            self@ == Some(u64::MAX) ==> unexpired,
    {
        let now = precise_time_ns();
        self.check_at(now)
    }
}

/// An armed timeout is unexpired at exactly the clock readings that do not
/// lie after the arming instant plus the delay, also where that sum is beyond
/// the range of the clock.
pub proof fn lemma_deadline_exact(now: u64, delay_ms: u64, later: u64)
    ensures
        unexpired_at(Some(deadline_after(now, delay_ms)), later) <==> later <= now + delay_ms
            * NANOS_PER_MILLI,
{
}

/// A timeout stays unexpired from the moment it is armed until its delay has
/// passed.
pub proof fn lemma_unexpired_within_delay(now: u64, delay_ms: u64, later: u64)
    requires
        now <= later,
        later - now <= delay_ms * NANOS_PER_MILLI,
    ensures
        unexpired_at(Some(deadline_after(now, delay_ms)), later),
{
}

} // verus!
