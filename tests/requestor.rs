use challenge_frontend::app_state::{AppState, LoginState};
use challenge_frontend::fetchers::{
    classify_response, Command, FetchResponse, Method, RequestBody, RequestStatus, Requestor, TaskPoll,
};
use challenge_frontend::refresh::{RefreshPoll, RefreshResponse};

fn refreshed(status: &str, message: &str) -> RefreshPoll {
    RefreshPoll::Ready(RefreshResponse { status: status.to_string(), message: message.to_string() })
}

fn is_in_progress(s: &RequestStatus) -> bool {
    matches!(s, RequestStatus::InProgress)
}

#[test]
fn unsent_requestor_reports_not_started() {
    let mut session = AppState::new_at(0);
    let mut r = Requestor::new_get("http://h/api/game/challenge", true);
    let s = r.check_promise(&mut session, RefreshPoll::NotReady, TaskPoll::NotReady);
    assert!(matches!(s, RequestStatus::NotStarted));
    assert!(!r.refresh_context());
    assert_eq!(r.take_command(), Command::Idle);
}

#[test]
fn sent_requestor_is_in_progress_until_reply_then_terminal_once() {
    let mut session = AppState::new_at(0);
    let mut r = Requestor::new_get("http://h/x", true);
    r.send();
    assert_eq!(r.take_command(), Command::Issue);
    for _ in 0..3 {
        let s = r.check_promise(&mut session, RefreshPoll::NotReady, TaskPoll::NotReady);
        assert!(is_in_progress(&s));
        assert!(!r.refresh_context());
    }
    let s = r.check_promise(
        &mut session,
        RefreshPoll::NotReady,
        TaskPoll::Ready(FetchResponse::Success("[1,2]".to_string())),
    );
    match s {
        RequestStatus::Success(t) => assert_eq!(t, "[1,2]"),
        _ => panic!("expected success"),
    }
    assert!(r.refresh_context());
    assert!(!r.refresh_context());
    let s = r.check_promise(&mut session, RefreshPoll::NotReady, TaskPoll::NotReady);
    assert!(matches!(s, RequestStatus::NotStarted));
    assert_eq!(session.logged_in, LoginState::LoggedOut);
}

#[test]
fn credentialed_request_retries_once_after_unauthorized() {
    let mut session = AppState::new_at(0);
    let mut r = Requestor::new_post("http://h/api/game/submit", true, Some("{}".to_string()));
    r.send();
    assert_eq!(r.take_command(), Command::Issue);

    let s = r.check_promise(&mut session, RefreshPoll::NotReady, TaskPoll::Ready(FetchResponse::FailAuth));
    assert!(is_in_progress(&s));
    assert_eq!(r.take_command(), Command::StartRefresh);
    assert!(r.refresh_in_flight);
    assert!(!r.request_in_flight);
    assert_eq!(r.retry_count, 0);

    let s = r.check_promise(&mut session, RefreshPoll::NotReady, TaskPoll::NotReady);
    assert!(is_in_progress(&s));

    let s = r.check_promise(&mut session, refreshed("success", ""), TaskPoll::NotReady);
    assert!(is_in_progress(&s));
    assert_eq!(session.logged_in, LoginState::LoggedIn);
    assert_eq!(r.take_command(), Command::Issue);
    assert!(r.request_in_flight);

    let s = r.check_promise(&mut session, RefreshPoll::NotReady, TaskPoll::Ready(FetchResponse::FailAuth));
    match s {
        RequestStatus::Failed(m) => assert_eq!(m, "Authentication failed"),
        _ => panic!("expected failure"),
    }
    assert_eq!(session.logged_in, LoginState::LoggedOut);
    assert_eq!(r.take_command(), Command::Idle);
    assert!(!r.refresh_in_flight);
}

#[test]
fn retried_request_can_still_succeed() {
    let mut session = AppState::new_at(0);
    let mut r = Requestor::new_get("http://h/x", true);
    r.send();
    r.check_promise(&mut session, RefreshPoll::NotReady, TaskPoll::Ready(FetchResponse::FailAuth));
    r.check_promise(&mut session, refreshed("Success", "renewed"), TaskPoll::NotReady);
    let s = r.check_promise(&mut session, RefreshPoll::NotReady, TaskPoll::Ready(FetchResponse::Success("ok".into())));
    assert!(matches!(s, RequestStatus::Success(ref t) if t == "ok"));
    assert_eq!(session.logged_in, LoginState::LoggedIn);
}

#[test]
fn uncredentialed_request_is_never_retried() {
    let mut session = AppState::new_at(0);
    session.set_logged_in();
    let mut r = Requestor::new_post("http://h/api/auth/register", false, Some("{}".into()));
    assert_eq!(r.retry_count, 0);
    r.send();
    r.take_command();
    let s = r.check_promise(&mut session, RefreshPoll::NotReady, TaskPoll::Ready(FetchResponse::FailAuth));
    assert!(matches!(s, RequestStatus::Failed(ref m) if m == "Authentication failed"));
    assert_eq!(r.take_command(), Command::Idle);
    assert!(!r.refresh_in_flight);
    assert_eq!(session.logged_in, LoginState::LoggedOut);
}

#[test]
fn failed_refresh_fails_the_request_and_logs_out() {
    let mut session = AppState::new_at(0);
    session.set_logged_in();
    let mut r = Requestor::new_get("http://h/x", true);
    r.send();
    r.check_promise(&mut session, RefreshPoll::NotReady, TaskPoll::Ready(FetchResponse::FailAuth));
    let s = r.check_promise(&mut session, refreshed("fail", "expired"), TaskPoll::NotReady);
    assert!(matches!(s, RequestStatus::Failed(ref m) if m == "Authentication failed"));
    assert_eq!(session.logged_in, LoginState::LoggedOut);
    assert!(!r.refresh_in_flight && !r.request_in_flight);
}

#[test]
fn refresh_transport_error_fails_the_request() {
    let mut session = AppState::new_at(0);
    let mut r = Requestor::new_get("http://h/x", true);
    r.send();
    r.check_promise(&mut session, RefreshPoll::NotReady, TaskPoll::Ready(FetchResponse::FailAuth));
    let s = r.check_promise(&mut session, RefreshPoll::Error("offline".into()), TaskPoll::NotReady);
    assert!(matches!(s, RequestStatus::Failed(ref m) if m == "Authentication failed"));
}

#[test]
fn server_failure_and_transport_error_are_reported_verbatim() {
    let mut session = AppState::new_at(0);
    let mut r = Requestor::new_get("http://h/x", true);
    r.send();
    let reply = classify_response(500, "boom".to_string());
    let s = r.check_promise(&mut session, RefreshPoll::NotReady, TaskPoll::Ready(reply));
    assert!(matches!(s, RequestStatus::Failed(ref m) if m == "boom"));
    assert_eq!(r.retry_count, 1);

    let mut r = Requestor::new_get("http://h/x", true);
    r.send();
    let s = r.check_promise(&mut session, RefreshPoll::NotReady, TaskPoll::Error("network down".into()));
    assert!(matches!(s, RequestStatus::Failed(ref m) if m == "network down"));
}

#[test]
fn status_codes_are_sorted() {
    assert!(matches!(classify_response(200, "a".into()), FetchResponse::Success(ref t) if t == "a"));
    assert!(matches!(classify_response(401, "a".into()), FetchResponse::FailAuth));
    assert!(matches!(classify_response(404, "gone".into()), FetchResponse::Failure(ref t) if t == "gone"));
    assert!(matches!(classify_response(403, "no".into()), FetchResponse::Failure(_)));
}

#[test]
fn refresh_only_requestor_reports_the_refresh() {
    let mut session = AppState::new_at(0);
    let mut r = Requestor::new_refresh();
    assert_eq!(r.method, Method::Refresh);
    assert_eq!(r.take_command(), Command::StartRefresh);
    r.send();
    assert_eq!(r.take_command(), Command::Idle);
    let s = r.check_promise(&mut session, RefreshPoll::NotReady, TaskPoll::NotReady);
    assert!(is_in_progress(&s));
    let s = r.check_promise(&mut session, refreshed("success", ""), TaskPoll::NotReady);
    assert!(matches!(s, RequestStatus::Success(ref t) if t.is_empty()));
    assert_eq!(session.logged_in, LoginState::LoggedIn);
    let s = r.check_promise(&mut session, RefreshPoll::NotReady, TaskPoll::NotReady);
    assert!(matches!(s, RequestStatus::NotStarted));
}

#[test]
fn send_waits_while_a_refresh_is_outstanding() {
    let mut session = AppState::new_at(0);
    let mut r = Requestor::new_get("http://h/x", true);
    r.send();
    r.check_promise(&mut session, RefreshPoll::NotReady, TaskPoll::Ready(FetchResponse::FailAuth));
    r.take_command();
    r.send();
    assert_eq!(r.take_command(), Command::Idle);
    assert!(!r.request_in_flight);
}

#[test]
fn post_bodies_are_kept() {
    let r = Requestor::new_post("u", true, Some("{\"a\":1}".into()));
    assert!(matches!(r.body, RequestBody::Json(ref j) if j == "{\"a\":1}"));
    let r = Requestor::new_post("u", true, None);
    assert!(matches!(r.body, RequestBody::Empty));
    let r = Requestor::new_form_post("u", false, Some(vec![]));
    assert!(matches!(r.body, RequestBody::Form(ref f) if f.is_empty()));
    assert_eq!(r.url, "u");
    assert!(!r.with_credentials);
}

#[test]
fn status_text() {
    assert_eq!(RequestStatus::NotStarted.to_string(), "Not started");
    assert_eq!(RequestStatus::InProgress.to_string(), "Loading...");
    assert_eq!(RequestStatus::Success("x".into()).to_string(), "x");
    assert_eq!(RequestStatus::Failed("y".into()).to_string(), "y");
    assert!(RequestStatus::Failed("y".into()).is_terminal());
    assert!(!RequestStatus::InProgress.is_terminal());
}
