use challenge_frontend::app_state::{AppState, LoginState};
use challenge_frontend::challenges::Challenges;
use challenge_frontend::fetchers::{Command, FetchResponse, FormValue, Method, RequestBody, Requestor, TaskPoll};
use challenge_frontend::languages::Languages;
use challenge_frontend::refresh::RefreshPoll;
use challenge_frontend::submission::{Submission, SubmissionResult};

fn python_submission() -> Submission {
    Submission {
        challenge: Challenges::C2331,
        filename: "sol.py".to_string(),
        language: Languages::Python,
        test: false,
        code: Some("print(1)".to_string()),
        binary: None,
    }
}

#[test]
fn validate_reports_unset_challenge() {
    let s = Submission { challenge: Challenges::Unselected, ..python_submission() };
    let e = s.validate().unwrap_err();
    assert!(e.contains("Challenge"));
    assert_eq!(e, "Challenge not selected");
}

#[test]
fn validate_reports_empty_filename() {
    let s = Submission { filename: String::new(), ..python_submission() };
    let e = s.validate().unwrap_err();
    assert!(e.contains("Filename"));
    assert_eq!(e, "Filename not specified");
}

#[test]
fn validate_reports_invalid_characters() {
    let s = Submission { filename: "bad name!".to_string(), ..python_submission() };
    assert_eq!(s.validate().unwrap_err(), "Filename contains invalid characters");
}

#[test]
fn validate_reports_missing_code() {
    let s = Submission { code: None, binary: None, ..python_submission() };
    assert_eq!(s.validate().unwrap_err(), "Code not specified");
}

#[test]
fn validate_accepts_a_complete_submission() {
    assert_eq!(python_submission().validate(), Ok(()));
    let b = Submission { code: None, binary: Some(vec![1, 2, 3]), filename: "a.out".into(), ..python_submission() };
    assert_eq!(b.validate(), Ok(()));
}

#[test]
fn validate_checks_rules_in_order() {
    let s = Submission { challenge: Challenges::Unselected, filename: String::new(), code: None, ..python_submission() };
    assert_eq!(s.validate().unwrap_err(), "Challenge not selected");
    let s = Submission { filename: "bad name".into(), code: None, ..python_submission() };
    assert_eq!(s.validate().unwrap_err(), "Code not specified");
}

#[test]
fn filename_rule_agrees_with_the_pattern() {
    let rx = regex::Regex::new(r"^[a-zA-Z0-9_\-\.]+$").unwrap();
    for name in ["sol.py", "a-b_c.9", "bad name!", "x/y", "é.py", "...", "-", "A.B", "tab\t", "new\nline", "ok\n"] {
        let s = Submission { filename: name.to_string(), ..python_submission() };
        assert_eq!(s.validate().is_ok(), rx.is_match(name), "{name:?}");
    }
}

#[test]
fn json_body_has_the_five_keys_and_no_binary() {
    let s = Submission { code: Some("x".into()), binary: Some(vec![9]), ..python_submission() };
    let text = s.to_json();
    assert_eq!(text, r#"{"challenge":"C2331","filename":"sol.py","language":"Python","test":false,"code":"x"}"#);
    let v: serde_json::Value = serde_json::from_str(&text).unwrap();
    let keys: Vec<&String> = v.as_object().unwrap().keys().collect();
    for k in ["challenge", "filename", "language", "test", "code"] {
        assert!(v.get(k).is_some(), "{k}");
    }
    assert_eq!(keys.len(), 5);
    assert!(v.get("binary").is_none());
}

#[test]
fn json_body_escapes_strings() {
    let s = Submission {
        code: Some("print(\"hi\")\n".into()),
        language: Languages::Cpp,
        test: true,
        ..python_submission()
    };
    let text = s.to_json();
    assert_eq!(
        text,
        r#"{"challenge":"C2331","filename":"sol.py","language":"Cpp","test":true,"code":"print(\"hi\")\n"}"#
    );
    let v: serde_json::Value = serde_json::from_str(&text).unwrap();
    assert_eq!(v["code"].as_str().unwrap(), "print(\"hi\")\n");
}

#[test]
fn json_body_without_code_has_null() {
    let s = Submission { code: None, ..python_submission() };
    assert!(s.to_json().ends_with(r#""code":null}"#));
}

#[test]
fn binary_submission_is_a_form_with_a_binary_part() {
    let s = Submission { code: None, binary: Some(vec![0, 255]), ..python_submission() };
    let parts = s.to_formdata();
    let names: Vec<&str> = parts.iter().map(|p| p.name.as_str()).collect();
    assert_eq!(names, vec!["challenge", "filename", "language", "test", "binary"]);
    assert!(!names.contains(&"code"));
    assert!(matches!(parts[0].value, FormValue::Text(ref t) if t == "2331"));
    assert!(matches!(parts[2].value, FormValue::Text(ref t) if t == "Python"));
    assert!(matches!(parts[3].value, FormValue::Text(ref t) if t == "false"));
    assert!(matches!(parts[4].value, FormValue::Blob(ref b) if b == &vec![0u8, 255]));
}

#[test]
fn sender_picks_the_encoding() {
    let r = python_submission().sender("http://h/api/game/submit").unwrap();
    assert_eq!(r.method, Method::Post);
    assert!(r.with_credentials);
    assert_eq!(r.command, Command::Issue);
    assert!(matches!(r.body, RequestBody::Json(ref j) if j.contains("\"code\":\"print(1)\"")));

    let b = Submission { code: None, binary: Some(vec![1]), ..python_submission() };
    let r = b.sender("http://h/api/game/binary").unwrap();
    assert!(matches!(r.body, RequestBody::Form(ref f) if f.len() == 5));
    assert_eq!(r.url, "http://h/api/game/binary");
}

#[test]
fn check_sender_reads_the_verdict() {
    let mut session = AppState::new_at(0);
    let mut none: Option<Requestor> = None;
    let r = Submission::check_sender(&mut none, &mut session, RefreshPoll::NotReady, TaskPoll::NotReady, Err(String::new()));
    assert!(matches!(r, SubmissionResult::NotStarted));

    let mut slot = python_submission().sender("u");
    let r = Submission::check_sender(&mut slot, &mut session, RefreshPoll::NotReady, TaskPoll::NotReady, Err(String::new()));
    assert!(matches!(r, SubmissionResult::Busy));
    assert!(slot.is_some());

    let verdict = SubmissionResult::Success { score: 42, message: "fast".into() };
    let r = Submission::check_sender(
        &mut slot,
        &mut session,
        RefreshPoll::NotReady,
        TaskPoll::Ready(FetchResponse::Success("{}".into())),
        Ok(verdict),
    );
    assert!(matches!(r, SubmissionResult::Success { score: 42, ref message } if message == "fast"));
    assert!(slot.is_none());
}

#[test]
fn check_sender_reports_failures() {
    let mut session = AppState::new_at(0);
    let mut slot = python_submission().sender("u");
    let r = Submission::check_sender(
        &mut slot,
        &mut session,
        RefreshPoll::NotReady,
        TaskPoll::Ready(FetchResponse::Success("garbage".into())),
        Err("expected value".into()),
    );
    assert!(matches!(r, SubmissionResult::Failure { ref message } if message == "expected value"));

    let mut slot = python_submission().sender("u");
    let r = Submission::check_sender(
        &mut slot,
        &mut session,
        RefreshPoll::NotReady,
        TaskPoll::Ready(FetchResponse::Failure("judge down".into())),
        Err(String::new()),
    );
    assert!(matches!(r, SubmissionResult::Failure { ref message } if message == "judge down"));
    assert!(slot.is_none());
    assert_eq!(session.logged_in, LoginState::LoggedOut);
}

#[test]
fn verdict_text() {
    assert_eq!(SubmissionResult::NotStarted.to_string(), "");
    assert_eq!(SubmissionResult::Success { score: 1, message: "well done".into() }.to_string(), "well done");
    assert_eq!(SubmissionResult::Failure { message: "wrong".into() }.to_string(), "Failure: wrong");
    assert_eq!(SubmissionResult::NotAuthorized.to_string(), "Not authorized");
    assert_eq!(SubmissionResult::Busy.to_string(), "Busy");
}

#[test]
fn default_submission() {
    let s = Submission::default();
    assert_eq!(s.challenge, Challenges::C2332);
    assert_eq!(s.language, Languages::C);
    assert!(s.filename.is_empty() && s.code.is_none() && s.binary.is_none() && !s.test);
    assert_eq!(s.validate().unwrap_err(), "Filename not specified");
}

#[test]
fn json_body_escapes_control_characters() {
    let s = Submission { code: Some("a\\b\u{1}\u{8}\t\r\u{c}\u{1f}\u{7f}é".into()), ..python_submission() };
    let text = s.to_json();
    assert!(text.ends_with("\"code\":\"a\\\\b\\u0001\\b\\t\\r\\f\\u001f\u{7f}é\"}"), "{text}");
}
