//! The session record shared by every screen and background ticker: whether
//! the user is logged in, the cached challenges, and the timers that decide
//! when the session credential is renewed.

use vstd::prelude::*;
use crate::challenges::ChallengeCollection;

verus! {

/// How long without user activity before the session is left to expire, in ms.
pub const ACTIVITY_TIMEOUT_MS: i64 = 600_000;

/// How often an active session's credential is renewed, in ms.
pub const REFRESH_PERIOD_MS: i64 = 300_000;

#[derive(Debug, Clone, Copy, PartialEq, Eq, Structural)]
pub enum LoginState {
    LoggedIn,
    LoggedOut,
}

/// Times are milliseconds since the Unix epoch; durations are milliseconds.
pub struct AppState {
    pub counter: usize,
    pub logged_in: LoginState,
    pub challenges: ChallengeCollection,
    pub last_refresh: i64,
    pub last_activity: i64,
    pub activity_timeout: i64,
    pub refresh_period: i64,
}

/// Relies on `chrono::Utc::now` and `DateTime::timestamp_millis`: the current
/// time in milliseconds since the Unix epoch. Nothing is promised of its value.
#[verifier::external_body]
pub(crate) fn current_millis() -> i64 {
    chrono::Utc::now().timestamp_millis()
}

impl AppState {
    /// The state as it is made at time `now`: logged out, no challenges, both
    /// timers at `now`, and the default timeout and period.
    pub open spec fn is_fresh_at(&self, now: int) -> bool {
        &&& self.counter == 1
        &&& self.logged_in == LoginState::LoggedOut
        &&& self.challenges.items@.len() == 0
        &&& self.last_refresh == now
        &&& self.last_activity == now
        &&& self.activity_timeout == ACTIVITY_TIMEOUT_MS
        &&& self.refresh_period == REFRESH_PERIOD_MS
    }

    /// A renewal is due at `now`: the last renewal is more than a period ago
    /// and the last activity less than the timeout ago.
    pub open spec fn needs_refresh_spec(&self, now: int) -> bool {
        &&& now - self.last_refresh > self.refresh_period
        &&& now - self.last_activity < self.activity_timeout
    }

    pub fn new_at(now: i64) -> (r: AppState)
        ensures
            r.is_fresh_at(now as int),
            r.challenges.url@ == crate::challenges::DEFAULT_BACKEND_URL@,
    {
        AppState {
            counter: 1,
            logged_in: LoginState::LoggedOut,
            challenges: ChallengeCollection::new(),
            last_refresh: now,
            last_activity: now,
            activity_timeout: ACTIVITY_TIMEOUT_MS,
            refresh_period: REFRESH_PERIOD_MS,
        }
    }

    pub fn set_logged_in(&mut self)
        ensures
            *final(self) == (AppState { logged_in: LoginState::LoggedIn, ..*old(self) }),
    {
        self.logged_in = LoginState::LoggedIn;
    }

    pub fn set_logged_out(&mut self)
        ensures
            *final(self) == (AppState { logged_in: LoginState::LoggedOut, ..*old(self) }),
    {
        self.logged_in = LoginState::LoggedOut;
    }

    pub fn needs_refresh_at(&self, now: i64) -> (r: bool)
        ensures
            r == self.needs_refresh_spec(now as int),
    {
        let since_refresh = now as i128 - self.last_refresh as i128;
        let since_activity = now as i128 - self.last_activity as i128;
        since_refresh > self.refresh_period as i128 && since_activity < self.activity_timeout as i128
    }

    /// Whether a renewal is due now, by the system clock.
    pub fn needs_refresh(&self) -> (r: bool)
        ensures
            exists|now: i64| r == self.needs_refresh_spec(now as int),
    {
        let now = current_millis();
        self.needs_refresh_at(now)
    }

    /// Records user activity at time `now`.
    pub fn update_activity_timer_at(&mut self, now: i64)
        ensures
            *final(self) == (AppState { last_activity: now, ..*old(self) }),
    {
        self.last_activity = now;
    }

    /// Records user activity at the current time.
    pub fn update_activity_timer(&mut self)
        ensures
            *final(self) == (AppState { last_activity: final(self).last_activity, ..*old(self) }),
    {
        self.update_activity_timer_at(current_millis());
    }
}

impl Default for AppState {
    fn default() -> (r: AppState)
        ensures
            exists|now: i64| r.is_fresh_at(now as int),
    {
        AppState::new_at(current_millis())
    }
}

/// A session made at `start` needs no renewal at once; later it needs one
/// exactly while more than the refresh period and less than the activity
/// timeout have passed.
pub proof fn lemma_refresh_window(s: AppState, start: int, elapsed: int)
    requires
        s.is_fresh_at(start),
    ensures
        !s.needs_refresh_spec(start),
        s.needs_refresh_spec(start + elapsed) == (REFRESH_PERIOD_MS < elapsed < ACTIVITY_TIMEOUT_MS),
{
}

} // verus!
