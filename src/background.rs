//! The background tickers: the challenge fetcher, which loads the challenge
//! list until it has it, and the login fetcher, which renews the session
//! credential while the user is active.

use vstd::prelude::*;
use crate::app_state::{current_millis, AppState, LoginState};
use crate::challenges::{is_list_request, Challenge, ChallengeCollection};
use crate::fetchers::{poll_step, record_login, FetchResponse, RequestStatus, Requestor, StatusView, TaskPoll};
use crate::refresh::{check_refresh_promise, refresh_outcome, RefreshPoll, RefreshStatus, RefreshStatusView};

verus! {

#[derive(Debug, Clone, Copy, PartialEq, Eq, Structural)]
pub enum FetchState {
    /// The list is missing or stale: the next tick fetches it.
    Dirty,
    Fetching,
    Clean,
}

pub struct ChallengeFetcher {
    pub state: FetchState,
    pub info_fetcher: Option<Requestor>,
}

/// What a poll of the list's GET does: `pre` and `s0` are the fetcher and the
/// session before, `post` and `s1` after, `r` the status reported. Only a
/// fetcher that is fetching polls; on success the session's list becomes
/// `decoded` and the list is clean, on failure it is dirty again, and
/// otherwise it keeps fetching with the polled requestor. The session's list
/// changes on success only.
pub open spec fn info_checked(
    pre: ChallengeFetcher,
    s0: AppState,
    refresh: RefreshPoll,
    task: TaskPoll,
    decoded: Vec<Challenge>,
    post: ChallengeFetcher,
    s1: AppState,
    r: StatusView,
) -> bool {
    if pre.state == FetchState::Fetching && pre.info_fetcher is Some {
        let (next, login, status) = poll_step(pre.info_fetcher->0, refresh, task);
        let recorded = record_login(s0, login);
        &&& r == status
        &&& match status {
            StatusView::Success(_) => {
                &&& post.state == FetchState::Clean
                &&& post.info_fetcher is None
                &&& s1 == (AppState {
                    challenges: ChallengeCollection { items: decoded, ..recorded.challenges },
                    ..recorded
                })
            },
            StatusView::Failed(_) => {
                &&& post.state == FetchState::Dirty
                &&& post.info_fetcher is None
                &&& s1 == recorded
            },
            _ => {
                &&& post.state == FetchState::Fetching
                &&& post.info_fetcher == Some(next)
                &&& s1 == recorded
            },
        }
    } else {
        &&& post == pre
        &&& s1 == s0
        &&& r is NotStarted
    }
}

impl ChallengeFetcher {
    pub fn new() -> (r: ChallengeFetcher)
        ensures
            r.state == FetchState::Dirty,
            r.info_fetcher is None,
    {
        ChallengeFetcher { state: FetchState::Dirty, info_fetcher: None }
    }

    /// When the list is dirty, sends its GET to the backend that `session`'s
    /// collection names.
    pub fn fetch(&mut self, session: &AppState)
        ensures
            old(self).state == FetchState::Dirty ==> {
                &&& final(self).state == FetchState::Fetching
                &&& final(self).info_fetcher matches Some(q) && is_list_request(q, session.challenges.url@)
            },
            old(self).state != FetchState::Dirty ==> *final(self) == *old(self),
    {
        if self.state != FetchState::Dirty {
            return;
        }
        self.state = FetchState::Fetching;
        self.info_fetcher = session.challenges.fetch();
    }

    /// Polls the list's GET with what the owner's tasks showed. On success
    /// the session's challenges become `decoded`, the list decoded from the
    /// reply's body, and the list is clean; on failure it is dirty again, to
    /// be fetched on the next tick.
    pub fn check_info_promise(
        &mut self,
        session: &mut AppState,
        refresh: RefreshPoll,
        task: TaskPoll,
        decoded: Vec<Challenge>,
    ) -> (r: RequestStatus)
        ensures
            info_checked(*old(self), *old(session), refresh, task, decoded, *final(self), *final(session), r@),
    {
        if self.state != FetchState::Fetching {
            return RequestStatus::NotStarted;
        }
        match &mut self.info_fetcher {
            None => RequestStatus::NotStarted,
            Some(getter) => {
                let result = getter.check_promise(session, refresh, task);
                match &result {
                    RequestStatus::Success(_) => {
                        self.info_fetcher = None;
                        self.state = FetchState::Clean;
                        session.challenges.items = decoded;
                    },
                    RequestStatus::Failed(_) => {
                        self.info_fetcher = None;
                        self.state = FetchState::Dirty;
                    },
                    _ => {},
                }
                result
            },
        }
    }

    /// One tick: fetch when dirty, then poll. A dirty list gets a fresh GET,
    /// which is polled at once; a list being fetched has its GET polled; a
    /// clean list is left alone.
    pub fn tick(&mut self, session: &mut AppState, refresh: RefreshPoll, task: TaskPoll, decoded: Vec<Challenge>) -> (r: RequestStatus)
        ensures
            old(self).state != FetchState::Dirty ==> info_checked(
                *old(self),
                *old(session),
                refresh,
                task,
                decoded,
                *final(self),
                *final(session),
                r@,
            ),
            old(self).state == FetchState::Dirty ==> exists|q: Requestor|
                #[trigger] is_list_request(q, old(session).challenges.url@) && info_checked(
                    ChallengeFetcher { state: FetchState::Fetching, info_fetcher: Some(q) },
                    *old(session),
                    refresh,
                    task,
                    decoded,
                    *final(self),
                    *final(session),
                    r@,
                ),
            old(self).state == FetchState::Dirty ==> match task {
                TaskPoll::NotReady => {
                    &&& final(self).state == FetchState::Fetching
                    &&& final(self).info_fetcher matches Some(q) && is_list_request(q, old(session).challenges.url@)
                    &&& *final(session) == *old(session)
                    &&& r is InProgress
                },
                TaskPoll::Ready(FetchResponse::Success(text)) => {
                    &&& final(self).state == FetchState::Clean
                    &&& final(self).info_fetcher is None
                    &&& *final(session) == (AppState {
                        challenges: ChallengeCollection { items: decoded, ..old(session).challenges },
                        ..*old(session)
                    })
                    &&& r@ == StatusView::Success(text@)
                },
                TaskPoll::Ready(FetchResponse::FailAuth) => {
                    &&& final(self).state == FetchState::Fetching
                    &&& final(self).info_fetcher matches Some(q) && q.refresh_in_flight && !q.request_in_flight
                    &&& *final(session) == *old(session)
                    &&& r is InProgress
                },
                _ => {
                    &&& final(self).state == FetchState::Dirty
                    &&& final(self).info_fetcher is None
                    &&& *final(session) == *old(session)
                    &&& r is Failed
                },
            },
    {
        self.fetch(session);
        let ghost mid = *self;
        let r = self.check_info_promise(session, refresh, task, decoded);
        proof {
            if old(self).state == FetchState::Dirty {
                let q = mid.info_fetcher->0;
                assert(is_list_request(q, old(session).challenges.url@));
                assert(mid == ChallengeFetcher { state: FetchState::Fetching, info_fetcher: Some(q) });
            }
        }
        r
    }
}

impl Default for ChallengeFetcher {
    fn default() -> (r: ChallengeFetcher)
        ensures
            r.state == FetchState::Dirty,
            r.info_fetcher is None,
    {
        ChallengeFetcher::new()
    }
}

#[derive(Debug, Clone, Copy, PartialEq, Eq, Structural)]
pub enum LoginFetchState {
    Idle,
    Fetching,
    Error,
}

pub struct LoginFetcher {
    pub state: LoginFetchState,
    /// A refresh started by this fetcher has not resolved yet.
    pub refresh_pending: bool,
}

/// The session after a refresh outcome: renewed means logged in, failed
/// means logged out, and anything else leaves it as it was.
pub open spec fn session_after_refresh(session: AppState, outcome: RefreshStatusView) -> AppState {
    match outcome {
        RefreshStatusView::Success => AppState { logged_in: LoginState::LoggedIn, ..session },
        RefreshStatusView::Failed(_) => AppState { logged_in: LoginState::LoggedOut, ..session },
        _ => session,
    }
}

pub open spec fn state_after_refresh(state: LoginFetchState, outcome: RefreshStatusView) -> LoginFetchState {
    match outcome {
        RefreshStatusView::Success => LoginFetchState::Idle,
        RefreshStatusView::Failed(_) => LoginFetchState::Error,
        _ => state,
    }
}

impl LoginFetcher {
    pub fn new() -> (r: LoginFetcher)
        ensures
            r.state == LoginFetchState::Idle,
            !r.refresh_pending,
    {
        LoginFetcher { state: LoginFetchState::Idle, refresh_pending: false }
    }

    /// Starts a refresh when one is due at `now` and none is outstanding, and
    /// records `now` as the time of the last refresh. The result says whether
    /// the owner is to start the refresh.
    pub fn fetch_at(&mut self, session: &mut AppState, now: i64) -> (started: bool)
        ensures
            started == (!old(self).refresh_pending && old(session).needs_refresh_spec(now as int)),
            started ==> {
                &&& *final(session) == (AppState { last_refresh: now, ..*old(session) })
                &&& final(self).state == LoginFetchState::Fetching
                &&& final(self).refresh_pending
            },
            !started ==> *final(session) == *old(session) && *final(self) == *old(self),
    {
        if self.refresh_pending || !session.needs_refresh_at(now) {
            return false;
        }
        session.last_refresh = now;
        self.state = LoginFetchState::Fetching;
        self.refresh_pending = true;
        true
    }

    /// Polls the outstanding refresh: renewed marks the session logged in,
    /// failed marks it logged out.
    pub fn check_info_promise(&mut self, session: &mut AppState, poll: RefreshPoll) -> (r: RefreshStatus)
        ensures
            r@ == refresh_outcome(old(self).refresh_pending, poll),
            final(self).refresh_pending == (old(self).refresh_pending && poll is NotReady),
            final(self).state == state_after_refresh(old(self).state, r@),
            *final(session) == session_after_refresh(*old(session), r@),
    {
        let status = check_refresh_promise(&mut self.refresh_pending, poll);
        match &status {
            RefreshStatus::Success => {
                session.set_logged_in();
                self.state = LoginFetchState::Idle;
            },
            RefreshStatus::Failed(_) => {
                session.set_logged_out();
                self.state = LoginFetchState::Error;
            },
            _ => {},
        }
        status
    }

    /// One tick at time `now`: start a refresh if one is due, then poll the
    /// outstanding one with `poll`. The result says whether the owner is to
    /// start a refresh.
    pub fn tick_at(&mut self, session: &mut AppState, now: i64, poll: RefreshPoll) -> (started: bool)
        ensures
            started == (!old(self).refresh_pending && old(session).needs_refresh_spec(now as int)),
            started ==> {
                let outcome = refresh_outcome(true, poll);
                &&& *final(session) == session_after_refresh(AppState { last_refresh: now, ..*old(session) }, outcome)
                &&& final(self).state == state_after_refresh(LoginFetchState::Fetching, outcome)
                &&& final(self).refresh_pending == (poll is NotReady)
            },
            !started ==> {
                let outcome = refresh_outcome(old(self).refresh_pending, poll);
                &&& *final(session) == session_after_refresh(*old(session), outcome)
                &&& final(self).state == state_after_refresh(old(self).state, outcome)
                &&& final(self).refresh_pending == (old(self).refresh_pending && poll is NotReady)
            },
    {
        let started = self.fetch_at(session, now);
        self.check_info_promise(session, poll);
        started
    }

    /// One tick by the system clock.
    pub fn tick(&mut self, session: &mut AppState, poll: RefreshPoll) -> (started: bool)
        ensures
            old(self).refresh_pending ==> {
                let outcome = refresh_outcome(true, poll);
                &&& !started
                &&& *final(session) == session_after_refresh(*old(session), outcome)
                &&& final(self).state == state_after_refresh(old(self).state, outcome)
                &&& final(self).refresh_pending == (poll is NotReady)
            },
            started ==> {
                let outcome = refresh_outcome(true, poll);
                &&& *final(session) == session_after_refresh(
                    AppState { last_refresh: final(session).last_refresh, ..*old(session) },
                    outcome,
                )
                &&& final(self).state == state_after_refresh(LoginFetchState::Fetching, outcome)
                &&& final(self).refresh_pending == (poll is NotReady)
            },
            !old(self).refresh_pending && !started ==> *final(session) == *old(session) && *final(self) == *old(self),
    {
        let now = current_millis();
        self.tick_at(session, now, poll)
    }
}

impl Default for LoginFetcher {
    fn default() -> (r: LoginFetcher)
        ensures
            r.state == LoginFetchState::Idle,
            !r.refresh_pending,
    {
        LoginFetcher::new()
    }
}

} // verus!
