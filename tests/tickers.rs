use challenge_frontend::app_state::{AppState, LoginState};
use challenge_frontend::background::{ChallengeFetcher, FetchState, LoginFetchState, LoginFetcher};
use challenge_frontend::challenges::Challenge;
use challenge_frontend::fetchers::{classify_response, Command, FetchResponse, RequestStatus, TaskPoll};
use challenge_frontend::refresh::{RefreshPoll, RefreshResponse, RefreshStatus};

const LIST: &str = r##"[
  {"command": "2331", "doc": "# One", "name": "First", "table": "23_3_1"},
  {"command": "2332", "doc": "# Two", "name": "Second", "table": "23_3_2"},
  {"command": "2333", "doc": "# Three", "name": "Third", "table": "23_3_3"}
]"##;

fn decode(text: &str) -> Vec<Challenge> {
    let v: serde_json::Value = serde_json::from_str(text).unwrap();
    v.as_array()
        .unwrap()
        .iter()
        .map(|c| Challenge {
            name: c["name"].as_str().unwrap().to_string(),
            command: c["command"].as_str().unwrap().to_string(),
            table: c["table"].as_str().unwrap().to_string(),
            doc: c["doc"].as_str().unwrap().to_string(),
        })
        .collect()
}

#[test]
fn challenge_fetcher_loads_three_challenges() {
    let mut session = AppState::new_at(0);
    let mut f = ChallengeFetcher::new();
    assert_eq!(f.state, FetchState::Dirty);

    let s = f.tick(&mut session, RefreshPoll::NotReady, TaskPoll::NotReady, vec![]);
    assert!(matches!(s, RequestStatus::InProgress));
    assert_eq!(f.state, FetchState::Fetching);
    let req = f.info_fetcher.as_mut().unwrap();
    assert_eq!(req.url, "http://123.4.5.6:3000/api/game/challenge");
    assert_eq!(req.take_command(), Command::Issue);

    let reply = classify_response(200, LIST.to_string());
    let decoded = decode(LIST);
    let s = f.tick(&mut session, RefreshPoll::NotReady, TaskPoll::Ready(reply), decoded);
    assert!(matches!(s, RequestStatus::Success(_)));
    assert_eq!(f.state, FetchState::Clean);
    assert!(f.info_fetcher.is_none());
    assert_eq!(session.challenges.items.len(), 3);
    assert_eq!(session.challenges.items[1].table, "23_3_2");

    let s = f.tick(&mut session, RefreshPoll::NotReady, TaskPoll::NotReady, vec![]);
    assert!(matches!(s, RequestStatus::NotStarted));
    assert_eq!(f.state, FetchState::Clean);
    assert_eq!(session.challenges.items.len(), 3);
}

#[test]
fn challenge_fetcher_returns_to_dirty_on_server_error() {
    let mut session = AppState::new_at(0);
    let mut f = ChallengeFetcher::default();
    f.tick(&mut session, RefreshPoll::NotReady, TaskPoll::NotReady, vec![]);
    let reply = classify_response(500, "Internal Server Error".to_string());
    let s = f.tick(&mut session, RefreshPoll::NotReady, TaskPoll::Ready(reply), vec![]);
    assert!(matches!(s, RequestStatus::Failed(ref m) if m == "Internal Server Error"));
    assert_eq!(f.state, FetchState::Dirty);
    assert!(f.info_fetcher.is_none());
    assert!(session.challenges.items.is_empty());

    let s = f.tick(&mut session, RefreshPoll::NotReady, TaskPoll::NotReady, vec![]);
    assert!(matches!(s, RequestStatus::InProgress));
    assert_eq!(f.state, FetchState::Fetching);
}

#[test]
fn challenge_fetcher_survives_one_expired_session() {
    let mut session = AppState::new_at(0);
    let mut f = ChallengeFetcher::new();
    f.tick(&mut session, RefreshPoll::NotReady, TaskPoll::NotReady, vec![]);
    f.tick(&mut session, RefreshPoll::NotReady, TaskPoll::Ready(FetchResponse::FailAuth), vec![]);
    assert_eq!(f.state, FetchState::Fetching);
    let ok = RefreshPoll::Ready(RefreshResponse { status: "success".into(), message: String::new() });
    f.tick(&mut session, ok, TaskPoll::NotReady, vec![]);
    assert_eq!(session.logged_in, LoginState::LoggedIn);
    f.tick(&mut session, RefreshPoll::NotReady, TaskPoll::Ready(FetchResponse::Success(LIST.into())), decode(LIST));
    assert_eq!(f.state, FetchState::Clean);
    assert_eq!(session.challenges.items.len(), 3);
}

#[test]
fn login_fetcher_refreshes_only_when_due() {
    let mut session = AppState::new_at(0);
    let mut f = LoginFetcher::new();
    assert!(!f.tick_at(&mut session, 60_000, RefreshPoll::NotReady));
    assert_eq!(f.state, LoginFetchState::Idle);

    assert!(f.tick_at(&mut session, 360_000, RefreshPoll::NotReady));
    assert_eq!(f.state, LoginFetchState::Fetching);
    assert!(f.refresh_pending);
    assert_eq!(session.last_refresh, 360_000);

    session.last_refresh = 0;
    assert!(!f.fetch_at(&mut session, 400_000));

    let ok = RefreshPoll::Ready(RefreshResponse { status: "SUCCESS".into(), message: String::new() });
    assert!(!f.tick_at(&mut session, 400_000, ok));
    assert_eq!(session.logged_in, LoginState::LoggedIn);
    assert_eq!(f.state, LoginFetchState::Idle);
    assert!(!f.refresh_pending);
}

#[test]
fn login_fetcher_marks_failure_logged_out() {
    let mut session = AppState::new_at(0);
    session.set_logged_in();
    let mut f = LoginFetcher::default();
    assert!(f.fetch_at(&mut session, 301_000));
    let st = f.check_info_promise(
        &mut session,
        RefreshPoll::Ready(RefreshResponse { status: "fail".into(), message: "token expired".into() }),
    );
    assert!(matches!(st, RefreshStatus::Failed(ref m) if m == "token expired"));
    assert_eq!(session.logged_in, LoginState::LoggedOut);
    assert_eq!(f.state, LoginFetchState::Error);
}

#[test]
fn login_fetcher_leaves_idle_sessions_alone() {
    let mut session = AppState::new_at(0);
    let mut f = LoginFetcher::new();
    assert!(!f.tick_at(&mut session, 11 * 60_000, RefreshPoll::NotReady));
    assert_eq!(session.last_refresh, 0);
    assert!(!f.tick(&mut session, RefreshPoll::NotReady));
}

#[test]
fn login_fetcher_polls_a_pending_refresh_whatever_the_clock() {
    let mut session = AppState::new_at(0);
    let mut f = LoginFetcher::new();
    assert!(f.fetch_at(&mut session, 301_000));
    let ok = RefreshPoll::Ready(RefreshResponse { status: "success".into(), message: String::new() });
    assert!(!f.tick(&mut session, ok));
    assert_eq!(session.logged_in, LoginState::LoggedIn);
    assert_eq!(f.state, LoginFetchState::Idle);
    assert!(!f.refresh_pending);
}

#[test]
fn challenge_fetcher_keeps_the_list_while_fetching() {
    let mut session = AppState::new_at(0);
    let mut f = ChallengeFetcher::new();
    f.tick(&mut session, RefreshPoll::NotReady, TaskPoll::NotReady, vec![]);
    f.tick(&mut session, RefreshPoll::NotReady, TaskPoll::Ready(FetchResponse::Success(LIST.into())), decode(LIST));
    f.state = FetchState::Dirty;
    f.tick(&mut session, RefreshPoll::NotReady, TaskPoll::NotReady, vec![]);
    let s = f.tick(&mut session, RefreshPoll::NotReady, TaskPoll::NotReady, vec![]);
    assert!(matches!(s, RequestStatus::InProgress));
    assert_eq!(f.info_fetcher.as_mut().unwrap().take_command(), Command::Issue);
    assert_eq!(session.challenges.items.len(), 3);
    let s = f.tick(&mut session, RefreshPoll::NotReady, TaskPoll::Error("offline".into()), vec![]);
    assert!(matches!(s, RequestStatus::Failed(_)));
    assert_eq!(f.state, FetchState::Dirty);
    assert_eq!(session.challenges.items.len(), 3);
}
