//! The login handshake that every new connection has to pass within a
//! bounded time.
//!
//! The window opens when the connection is registered. Times are
//! milliseconds on a clock that the caller reads.

use vstd::prelude::*;

verus! {

/// How long a connection may stay silent before its login, in milliseconds.
pub const USER_NOT_LOGIN_TIMEOUT: u64 = 20000;

/// Margin added to the login timeout to make up for network latency, in
/// milliseconds.
pub const LATENCY_COMPENSATION: u64 = 2500;

/// The whole handshake window in milliseconds.
pub open spec fn spec_auth_window_millis() -> int {
    USER_NOT_LOGIN_TIMEOUT as int + LATENCY_COMPENSATION as int
}

/// The whole handshake window: the login timeout plus the latency margin.
pub fn auth_window_millis() -> (window: u64)
    ensures
        window as int == spec_auth_window_millis(),
        window == 22500,
{
    USER_NOT_LOGIN_TIMEOUT + LATENCY_COMPENSATION
}

/// Whether the handshake window of a connection registered at
/// `registered_at` is over at `now`: whether the whole window has gone by.
pub open spec fn spec_deadline_passed(registered_at: u64, now: u64) -> bool {
    now as int - registered_at as int >= spec_auth_window_millis()
}

/// Whether the handshake window of a connection registered at
/// `registered_at` is over at `now`. On a clock that has gone backwards it
/// is not.
pub fn deadline_passed(registered_at: u64, now: u64) -> (passed: bool)
    ensures
        passed == spec_deadline_passed(registered_at, now),
{
    now >= registered_at && now - registered_at >= auth_window_millis()
}

} // verus!
