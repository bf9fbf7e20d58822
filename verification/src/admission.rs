//! The admission policy: how long an attempt blocks a new one for the same
//! phone number.

use vstd::prelude::*;

verus! {

/// Length of the admission window, in seconds.
pub const ADMISSION_WINDOW_SECS: u64 = 600;

/// An attempt created at `created_at` is live at `now` while its age is
/// below the admission window. Both are seconds on one clock.
pub open spec fn is_live(created_at: int, now: int) -> bool {
    now - created_at < ADMISSION_WINDOW_SECS as int
}

/// Whether an attempt created at `created_at` still blocks a new one at `now`.
pub fn attempt_is_live(created_at: u64, now: u64) -> (live: bool)
    ensures
        live == is_live(created_at as int, now as int),
{
    now < created_at || now - created_at < ADMISSION_WINDOW_SECS
}

/// Once the window has passed, an attempt stays expired.
pub proof fn lemma_expired_stays_expired(created_at: int, now: int, later: int)
    requires
        !is_live(created_at, now),
        now <= later,
    ensures
        !is_live(created_at, later),
{
}

} // verus!
