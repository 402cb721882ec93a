//! The request lifecycle shared by every screen: one outbound call, polled on
//! each frame, with one automatic retry after a session refresh when the
//! backend answers 401.
//!
//! A `Requestor` holds no network handle. It decides; its owner performs. The
//! owner polls its own request and refresh tasks, hands what it found to
//! `check_promise`, and after each call takes the `Command` that says whether
//! to issue the request or start a refresh. Whenever `request_in_flight` or
//! `refresh_in_flight` is false the owner drops the matching task.

use vstd::prelude::*;
use crate::app_state::{AppState, LoginState};
use crate::refresh::{
    check_refresh_promise, is_success_status, refresh_outcome, RefreshPoll, RefreshResponse, RefreshStatus,
    RefreshStatusView,
};

verus! {

/// The failure that ends a request whose credential could not be renewed.
pub const AUTH_FAILED: &'static str = "Authentication failed";

pub enum RequestStatus {
    NotStarted,
    InProgress,
    Success(String),
    Failed(String),
}

pub enum StatusView {
    NotStarted,
    InProgress,
    Success(Seq<char>),
    Failed(Seq<char>),
}

impl View for RequestStatus {
    type V = StatusView;

    open spec fn view(&self) -> StatusView {
        match self {
            RequestStatus::NotStarted => StatusView::NotStarted,
            RequestStatus::InProgress => StatusView::InProgress,
            RequestStatus::Success(s) => StatusView::Success(s@),
            RequestStatus::Failed(s) => StatusView::Failed(s@),
        }
    }
}

impl StatusView {
    pub open spec fn is_terminal(self) -> bool {
        self is Success || self is Failed
    }
}

impl RequestStatus {
    /// The text shown for this status.
    pub fn to_string(&self) -> (r: String)
        ensures
            r@ == match self@ {
                StatusView::NotStarted => "Not started"@,
                StatusView::InProgress => "Loading..."@,
                StatusView::Success(s) => s,
                StatusView::Failed(s) => s,
            },
    {
        match self {
            RequestStatus::NotStarted => "Not started".to_owned(),
            RequestStatus::InProgress => "Loading...".to_owned(),
            RequestStatus::Success(s) => s.clone(),
            RequestStatus::Failed(s) => s.clone(),
        }
    }

    pub fn is_terminal(&self) -> (r: bool)
        ensures
            r == self@.is_terminal(),
    {
        match self {
            RequestStatus::Success(_) | RequestStatus::Failed(_) => true,
            _ => false,
        }
    }
}

/// A completed HTTP exchange, sorted by status code.
pub enum FetchResponse {
    /// 200, with the body.
    Success(String),
    /// Any status but 200 and 401, with the body.
    Failure(String),
    /// 401: the credential was refused.
    FailAuth,
}

/// What a poll of the outstanding request found.
pub enum TaskPoll {
    /// No reply yet, or no request outstanding.
    NotReady,
    /// The exchange completed.
    Ready(FetchResponse),
    /// The exchange failed before a status arrived.
    Error(String),
}

/// Sorts a reply by its status code: 200 succeeds with the body, 401 is an
/// authentication failure, anything else fails with the body.
pub fn classify_response(status: u16, text: String) -> (r: FetchResponse)
    ensures
        status == 200 ==> r == FetchResponse::Success(text),
        status == 401 ==> r == FetchResponse::FailAuth,
        status != 200 && status != 401 ==> r == FetchResponse::Failure(text),
{
    if status == 200 {
        FetchResponse::Success(text)
    } else if status == 401 {
        FetchResponse::FailAuth
    } else {
        FetchResponse::Failure(text)
    }
}

#[derive(Debug, Clone, Copy, PartialEq, Eq, Structural)]
pub enum Method {
    Get,
    Post,
    /// No request of its own: only the session refresh.
    Refresh,
}

/// What the owner of a requestor is to do on its behalf.
#[derive(Debug, Clone, Copy, PartialEq, Eq, Structural)]
pub enum Command {
    Idle,
    /// Issue the request (again), replacing any earlier request task.
    Issue,
    /// Start the session refresh.
    StartRefresh,
}

pub enum FormValue {
    Text(String),
    Blob(Vec<u8>),
}

/// One named part of a multipart form.
pub struct FormPart {
    pub name: String,
    pub value: FormValue,
}

pub enum RequestBody {
    Empty,
    Json(String),
    Form(Vec<FormPart>),
}

pub struct Requestor {
    pub with_credentials: bool,
    pub url: String,
    /// Retries after a refresh that are left.
    pub retry_count: usize,
    /// Set on each transition, cleared by `refresh_context`.
    pub state_has_changed: bool,
    pub request_in_flight: bool,
    pub refresh_in_flight: bool,
    pub body: RequestBody,
    pub method: Method,
    /// The owner's next action, taken by `take_command`.
    pub command: Command,
}

/// The requestor made by the constructors, before anything is sent.
pub open spec fn is_fresh(r: Requestor) -> bool {
    &&& r.retry_count == (if r.with_credentials { 1usize } else { 0usize })
    &&& !r.state_has_changed
    &&& !r.request_in_flight
    &&& r.refresh_in_flight == (r.method == Method::Refresh)
    &&& r.command == (if r.method == Method::Refresh { Command::StartRefresh } else { Command::Idle })
}

/// The request and a refresh are never outstanding together: every
/// requestor is made so, and no send or poll breaks it.
pub open spec fn one_outstanding(r: Requestor) -> bool {
    !(r.request_in_flight && r.refresh_in_flight)
}

/// The requestor after `send`: a GET or POST goes out unless a refresh is
/// outstanding; a refresh-only requestor sends nothing.
pub open spec fn send_step(r: Requestor) -> Requestor {
    if r.refresh_in_flight || r.method == Method::Refresh {
        r
    } else {
        Requestor { request_in_flight: true, command: Command::Issue, ..r }
    }
}

/// The request task's result has been consumed.
pub open spec fn settled(r: Requestor) -> Requestor {
    Requestor { request_in_flight: false, state_has_changed: true, ..r }
}

/// One poll of a requestor: its next state, the login state to record (if
/// any), and the status reported.
pub open spec fn poll_step(r: Requestor, refresh: RefreshPoll, task: TaskPoll) -> (Requestor, Option<LoginState>, StatusView) {
    let r1 = Requestor { refresh_in_flight: r.refresh_in_flight && refresh is NotReady, ..r };
    match refresh_outcome(r.refresh_in_flight, refresh) {
        RefreshStatusView::Success => if r.method == Method::Refresh {
            (Requestor { state_has_changed: true, ..r1 }, Some(LoginState::LoggedIn), StatusView::Success(Seq::empty()))
        } else {
            (send_step(Requestor { state_has_changed: true, ..r1 }), Some(LoginState::LoggedIn), StatusView::InProgress)
        },
        RefreshStatusView::Failed(_) => (
            Requestor { state_has_changed: true, ..r1 },
            Some(LoginState::LoggedOut),
            StatusView::Failed(AUTH_FAILED@),
        ),
        RefreshStatusView::InProgress => (r1, None, StatusView::InProgress),
        RefreshStatusView::NotStarted => if !r.request_in_flight {
            (r1, None, StatusView::NotStarted)
        } else {
            match task {
                TaskPoll::NotReady => (r1, None, StatusView::InProgress),
                TaskPoll::Ready(FetchResponse::Success(text)) => (settled(r1), None, StatusView::Success(text@)),
                TaskPoll::Ready(FetchResponse::Failure(text)) => (settled(r1), None, StatusView::Failed(text@)),
                TaskPoll::Error(e) => (settled(r1), None, StatusView::Failed(e@)),
                TaskPoll::Ready(FetchResponse::FailAuth) => if r.retry_count > 0 {
                    (
                        Requestor {
                            retry_count: (r.retry_count - 1) as usize,
                            refresh_in_flight: true,
                            command: Command::StartRefresh,
                            ..settled(r1)
                        },
                        None,
                        StatusView::InProgress,
                    )
                } else {
                    (settled(r1), Some(LoginState::LoggedOut), StatusView::Failed(AUTH_FAILED@))
                },
            }
        },
    }
}

/// `session` with the login state that a poll recorded, if it recorded one.
pub open spec fn record_login(session: AppState, login: Option<LoginState>) -> AppState {
    match login {
        Some(l) => AppState { logged_in: l, ..session },
        None => session,
    }
}

impl Requestor {
    pub fn new_get(url: &str, with_credentials: bool) -> (r: Requestor)
        ensures
            is_fresh(r),
            r.url@ == url@,
            r.with_credentials == with_credentials,
            r.method == Method::Get,
            r.body is Empty,
    {
        Self::new(url, with_credentials, None, None, Method::Get)
    }

    /// A requestor that only renews the session; the refresh starts at once.
    pub fn new_refresh() -> (r: Requestor)
        ensures
            is_fresh(r),
            r.url@.len() == 0,
            r.with_credentials,
            r.method == Method::Refresh,
            r.body is Empty,
    {
        proof {
            reveal_strlit("");
        }
        let mut s = Self::new("", true, None, None, Method::Refresh);
        s.refresh_login();
        s
    }

    pub fn new_post(url: &str, with_credentials: bool, data: Option<String>) -> (r: Requestor)
        ensures
            is_fresh(r),
            r.url@ == url@,
            r.with_credentials == with_credentials,
            r.method == Method::Post,
            match data {
                Some(d) => r.body == RequestBody::Json(d),
                None => r.body is Empty,
            },
    {
        Self::new(url, with_credentials, data, None, Method::Post)
    }

    pub fn new_form_post(url: &str, with_credentials: bool, data: Option<Vec<FormPart>>) -> (r: Requestor)
        ensures
            is_fresh(r),
            r.url@ == url@,
            r.with_credentials == with_credentials,
            r.method == Method::Post,
            match data {
                Some(d) => r.body == RequestBody::Form(d),
                None => r.body is Empty,
            },
    {
        Self::new(url, with_credentials, None, data, Method::Post)
    }

    /// A JSON body wins over a form; with neither the body is empty.
    fn new(
        url: &str,
        with_credentials: bool,
        data: Option<String>,
        form: Option<Vec<FormPart>>,
        method: Method,
    ) -> (r: Requestor)
        ensures
            r.retry_count == (if with_credentials { 1usize } else { 0usize }),
            !r.state_has_changed,
            !r.request_in_flight,
            !r.refresh_in_flight,
            r.command == Command::Idle,
            r.url@ == url@,
            r.with_credentials == with_credentials,
            r.method == method,
            match data {
                Some(d) => r.body == RequestBody::Json(d),
                None => match form {
                    Some(f) => r.body == RequestBody::Form(f),
                    None => r.body is Empty,
                },
            },
    {
        let body = match data {
            Some(d) => RequestBody::Json(d),
            None => match form {
                Some(f) => RequestBody::Form(f),
                None => RequestBody::Empty,
            },
        };
        Requestor {
            with_credentials,
            url: url.to_owned(),
            retry_count: if with_credentials { 1 } else { 0 },
            state_has_changed: false,
            request_in_flight: false,
            refresh_in_flight: false,
            body,
            method,
            command: Command::Idle,
        }
    }

    /// Starts the session refresh unless one is already outstanding.
    fn refresh_login(&mut self)
        ensures
            *final(self) == (if old(self).refresh_in_flight {
                *old(self)
            } else {
                Requestor { refresh_in_flight: true, command: Command::StartRefresh, ..*old(self) }
            }),
    {
        if !self.refresh_in_flight {
            self.refresh_in_flight = true;
            self.command = Command::StartRefresh;
        }
    }

    /// Polls the request: `refresh` and `task` are what the owner's refresh
    /// and request tasks showed. Records a renewed session as logged in, and
    /// an unrecoverable authentication failure as logged out.
    pub fn check_promise(&mut self, session: &mut AppState, refresh: RefreshPoll, task: TaskPoll) -> (r: RequestStatus)
        ensures
            ({
                let (next, login, status) = poll_step(*old(self), refresh, task);
                &&& *final(self) == next
                &&& *final(session) == record_login(*old(session), login)
                &&& r@ == status
            }),
    {
        let ghost r0 = *self;
        let ghost s0 = *session;
        let outcome = check_refresh_promise(&mut self.refresh_in_flight, refresh);
        match outcome {
            RefreshStatus::Success => {
                session.set_logged_in();
                self.state_has_changed = true;
                if self.method == Method::Refresh {
                    return RequestStatus::Success(String::new());
                }
                self.send();
                return RequestStatus::InProgress;
            },
            RefreshStatus::Failed(_) => {
                session.set_logged_out();
                self.state_has_changed = true;
                return RequestStatus::Failed(AUTH_FAILED.to_owned());
            },
            RefreshStatus::InProgress => {
                return RequestStatus::InProgress;
            },
            RefreshStatus::NotStarted => {},
        }
        if !self.request_in_flight {
            return RequestStatus::NotStarted;
        }
        match task {
            TaskPoll::NotReady => RequestStatus::InProgress,
            TaskPoll::Ready(FetchResponse::Success(text)) => {
                self.request_in_flight = false;
                self.state_has_changed = true;
                RequestStatus::Success(text)
            },
            TaskPoll::Ready(FetchResponse::Failure(text)) => {
                self.request_in_flight = false;
                self.state_has_changed = true;
                RequestStatus::Failed(text)
            },
            TaskPoll::Error(e) => {
                self.request_in_flight = false;
                self.state_has_changed = true;
                RequestStatus::Failed(e)
            },
            TaskPoll::Ready(FetchResponse::FailAuth) => {
                self.request_in_flight = false;
                self.state_has_changed = true;
                if self.retry_count > 0 {
                    self.retry_count -= 1;
                    self.refresh_login();
                    RequestStatus::InProgress
                } else {
                    session.set_logged_out();
                    RequestStatus::Failed(AUTH_FAILED.to_owned())
                }
            },
        }
    }

    /// True once after each transition: the owner's cue to redraw.
    pub fn refresh_context(&mut self) -> (r: bool)
        ensures
            r == old(self).state_has_changed,
            *final(self) == (Requestor { state_has_changed: false, ..*old(self) }),
    {
        if self.state_has_changed {
            self.state_has_changed = false;
            true
        } else {
            false
        }
    }

    /// Sends the request: the owner is told to issue it.
    pub fn send(&mut self)
        ensures
            *final(self) == send_step(*old(self)),
    {
        if !self.refresh_in_flight && self.method != Method::Refresh {
            self.request_in_flight = true;
            self.command = Command::Issue;
        }
    }

    /// The owner's next action; the slot is left `Idle`.
    pub fn take_command(&mut self) -> (r: Command)
        ensures
            r == old(self).command,
            *final(self) == (Requestor { command: Command::Idle, ..*old(self) }),
    {
        let c = self.command;
        self.command = Command::Idle;
        c
    }
}

/// A credentialed request that the backend refuses is retried exactly once:
/// the first 401 starts a refresh and reports progress; a successful refresh
/// records the session as logged in and issues the request again; a second
/// 401 fails with `AUTH_FAILED`, records the session as logged out and starts
/// nothing more.
pub proof fn lemma_one_retry_after_unauthorized(r0: Requestor, resp: RefreshResponse, task: TaskPoll)
    requires
        is_fresh(r0),
        r0.with_credentials,
        r0.method != Method::Refresh,
        is_success_status(resp.status@),
    ensures
        ({
            let r1 = send_step(r0);
            let (r2, l2, s2) = poll_step(r1, RefreshPoll::NotReady, TaskPoll::Ready(FetchResponse::FailAuth));
            let (r3, l3, s3) = poll_step(r2, RefreshPoll::Ready(resp), task);
            let (r4, l4, s4) = poll_step(r3, RefreshPoll::NotReady, TaskPoll::Ready(FetchResponse::FailAuth));
            &&& r1.request_in_flight && r1.command == Command::Issue
            &&& s2 == StatusView::InProgress && l2 is None
            &&& r2.refresh_in_flight && !r2.request_in_flight && r2.command == Command::StartRefresh
            &&& s3 == StatusView::InProgress && l3 == Some(LoginState::LoggedIn)
            &&& r3.request_in_flight && !r3.refresh_in_flight && r3.command == Command::Issue
            &&& s4 == StatusView::Failed(AUTH_FAILED@) && l4 == Some(LoginState::LoggedOut)
            &&& !r4.request_in_flight && !r4.refresh_in_flight && r4.command == Command::Issue
        }),
{
}

/// A requestor without credentials never retries: it starts with no retry
/// budget and no refresh, no send or poll changes that, and a 401 then fails
/// at once with `AUTH_FAILED`, records the session as logged out and starts no
/// refresh.
pub proof fn lemma_no_retry_without_credentials(r0: Requestor, r: Requestor, refresh: RefreshPoll, task: TaskPoll)
    requires
        is_fresh(r0),
        !r0.with_credentials,
        r0.method != Method::Refresh,
    ensures
        r0.retry_count == 0 && !r0.refresh_in_flight,
        ({
            let (next, login, status) = poll_step(send_step(r0), refresh, TaskPoll::Ready(FetchResponse::FailAuth));
            &&& status == StatusView::Failed(AUTH_FAILED@)
            &&& login == Some(LoginState::LoggedOut)
            &&& !next.refresh_in_flight && !next.request_in_flight
            &&& next.command == Command::Issue
        }),
        (r.retry_count == 0 && !r.refresh_in_flight) ==> ({
            let next = poll_step(r, refresh, task).0;
            &&& next.retry_count == 0 && !next.refresh_in_flight
            &&& send_step(r).retry_count == 0 && !send_step(r).refresh_in_flight
        }),
        (r.retry_count == 0 && !r.refresh_in_flight && r.request_in_flight) ==> ({
            let (next, login, status) = poll_step(r, refresh, TaskPoll::Ready(FetchResponse::FailAuth));
            &&& status == StatusView::Failed(AUTH_FAILED@)
            &&& login == Some(LoginState::LoggedOut)
            &&& !next.refresh_in_flight && !next.request_in_flight
            &&& next.command == r.command
        }),
{
}

/// A request that was never sent reports `NotStarted` and changes nothing;
/// once sent, every poll that finds no reply reports `InProgress` and changes
/// nothing, as does every poll while a refresh is outstanding; a terminal
/// status is reported once, and every later poll reports `NotStarted` and
/// changes nothing, so it issues no request and starts no refresh.
pub proof fn lemma_poll_lifecycle(
    r0: Requestor,
    r: Requestor,
    refresh: RefreshPoll,
    task: TaskPoll,
    later_refresh: RefreshPoll,
    later_task: TaskPoll,
)
    requires
        is_fresh(r0),
        r0.method != Method::Refresh,
    ensures
        poll_step(r0, refresh, task) == (r0, None::<LoginState>, StatusView::NotStarted),
        poll_step(send_step(r0), refresh, TaskPoll::NotReady) == (send_step(r0), None::<LoginState>, StatusView::InProgress),
        r.refresh_in_flight ==> poll_step(r, RefreshPoll::NotReady, task) == (r, None::<LoginState>, StatusView::InProgress),
        one_outstanding(r) ==> ({
            let (r1, _, s1) = poll_step(r, refresh, task);
            s1.is_terminal() ==> poll_step(r1, later_refresh, later_task) == (r1, None::<LoginState>, StatusView::NotStarted)
        }),
{
}

/// A requestor never has its request and a refresh outstanding together, and
/// never starts a second refresh while one is outstanding. Every requestor is
/// made that way, and no send or poll breaks it.
pub proof fn lemma_one_outstanding_task(r0: Requestor, r: Requestor, refresh: RefreshPoll, task: TaskPoll)
    requires
        is_fresh(r0),
        one_outstanding(r),
    ensures
        one_outstanding(r0),
        one_outstanding(poll_step(r, refresh, task).0),
        one_outstanding(send_step(r)),
        (r.refresh_in_flight && r.command != Command::StartRefresh) ==> poll_step(r, refresh, task).0.command
            != Command::StartRefresh,
{
}

} // verus!
