//! A code or binary entry for a challenge: its validation before anything is
//! sent, its two encodings (a JSON body when source text is present, a
//! multipart form otherwise), and the reading of the judge's verdict.

use vstd::prelude::*;
use crate::app_state::AppState;
use crate::challenges::Challenges;
use crate::fetchers::{poll_step, record_login, Command, FormPart, FormValue, RequestBody, RequestStatus, Requestor, StatusView, TaskPoll};
use crate::json::{encode_object, member, members_view, object_text, JsonMember, JsonValue, JsonValueView};
use crate::languages::Languages;
use crate::refresh::RefreshPoll;
use crate::text::chars_of;

verus! {

pub const CHALLENGE_NOT_SELECTED: &'static str = "Challenge not selected";
pub const FILENAME_NOT_SPECIFIED: &'static str = "Filename not specified";
pub const CODE_NOT_SPECIFIED: &'static str = "Code not specified";
pub const FILENAME_INVALID: &'static str = "Filename contains invalid characters";

pub struct Submission {
    pub challenge: Challenges,
    pub filename: String,
    pub language: Languages,
    pub test: bool,
    pub code: Option<String>,
    pub binary: Option<Vec<u8>>,
}

/// A character a filename may hold: an ASCII letter or digit, `_`, `-` or `.`.
pub open spec fn is_filename_char(c: char) -> bool {
    ('a' <= c && c <= 'z') || ('A' <= c && c <= 'Z') || ('0' <= c && c <= '9') || c == '_' || c == '-'
        || c == '.'
}

/// A non-empty filename made of filename characters only.
pub open spec fn is_valid_filename(name: Seq<char>) -> bool {
    name.len() > 0 && forall|i: int| 0 <= i < name.len() ==> is_filename_char(#[trigger] name[i])
}

/// The first rule that `s` breaks, in the order challenge, filename present,
/// code or binary present, filename characters; `None` when it breaks none.
pub open spec fn validation_error(s: Submission) -> Option<Seq<char>> {
    if s.challenge == Challenges::Unselected {
        Some(CHALLENGE_NOT_SELECTED@)
    } else if s.filename@.len() == 0 {
        Some(FILENAME_NOT_SPECIFIED@)
    } else if s.code is None && s.binary is None {
        Some(CODE_NOT_SPECIFIED@)
    } else if !is_valid_filename(s.filename@) {
        Some(FILENAME_INVALID@)
    } else {
        None
    }
}

/// The members of a submission's JSON body; the binary is never among them.
pub open spec fn submission_members(s: Submission) -> Seq<(Seq<char>, JsonValueView)> {
    seq![
        ("challenge"@, JsonValueView::Str(s.challenge.wire_label())),
        ("filename"@, JsonValueView::Str(s.filename@)),
        ("language"@, JsonValueView::Str(s.language.wire_label())),
        ("test"@, JsonValueView::Bool(s.test)),
        ("code"@, match s.code {
            Some(c) => JsonValueView::Str(c@),
            None => JsonValueView::Null,
        }),
    ]
}

pub enum FormValueView {
    Text(Seq<char>),
    Blob(Seq<u8>),
}

pub open spec fn form_value_view(v: FormValue) -> FormValueView {
    match v {
        FormValue::Text(t) => FormValueView::Text(t@),
        FormValue::Blob(b) => FormValueView::Blob(b@),
    }
}

pub open spec fn parts_view(parts: Seq<FormPart>) -> Seq<(Seq<char>, FormValueView)> {
    parts.map_values(|p: FormPart| (p.name@, form_value_view(p.value)))
}

pub open spec fn bool_text(b: bool) -> Seq<char> {
    if b { "true"@ } else { "false"@ }
}

/// The parts of a submission's multipart form: the four fields, then the code
/// and the binary where present.
pub open spec fn submission_parts(s: Submission) -> Seq<(Seq<char>, FormValueView)> {
    let fields = seq![
        ("challenge"@, FormValueView::Text(s.challenge.label())),
        ("filename"@, FormValueView::Text(s.filename@)),
        ("language"@, FormValueView::Text(s.language.label())),
        ("test"@, FormValueView::Text(bool_text(s.test))),
    ];
    let with_code = match s.code {
        Some(c) => fields.push(("code"@, FormValueView::Text(c@))),
        None => fields,
    };
    match s.binary {
        Some(b) => with_code.push(("binary"@, FormValueView::Blob(b@))),
        None => with_code,
    }
}

fn filename_is_valid(name: &str) -> (r: bool)
    ensures
        r == is_valid_filename(name@),
{
    let cs = chars_of(name);
    if cs.len() == 0 {
        return false;
    }
    let mut i: usize = 0;
    while i < cs.len()
        invariant
            cs@ == name@,
            i <= cs@.len(),
            forall|k: int| 0 <= k < i ==> is_filename_char(#[trigger] cs@[k]),
        decreases cs.len() - i,
    {
        let c = cs[i];
        let ok = ('a' <= c && c <= 'z') || ('A' <= c && c <= 'Z') || ('0' <= c && c <= '9') || c == '_'
            || c == '-' || c == '.';
        if !ok {
            assert(!is_filename_char(cs@[i as int]));
            return false;
        }
        i += 1;
    }
    true
}

impl Submission {
    /// Checks the submission before anything is sent; the error is the message
    /// of the first rule broken.
    pub fn validate(&self) -> (r: Result<(), String>)
        ensures
            match r {
                Ok(()) => validation_error(*self) is None,
                Err(e) => validation_error(*self) == Some(e@),
            },
    {
        if self.challenge == Challenges::Unselected {
            return Err(CHALLENGE_NOT_SELECTED.to_owned());
        }
        if self.filename.as_str().unicode_len() == 0 {
            return Err(FILENAME_NOT_SPECIFIED.to_owned());
        }
        if self.code.is_none() && self.binary.is_none() {
            return Err(CODE_NOT_SPECIFIED.to_owned());
        }
        if !filename_is_valid(self.filename.as_str()) {
            return Err(FILENAME_INVALID.to_owned());
        }
        Ok(())
    }

    /// The JSON body of the submission.
    pub fn to_json(&self) -> (r: String)
        ensures
            r@ == object_text(submission_members(*self)),
    {
        let mut members: Vec<JsonMember> = Vec::new();
        members.push(member("challenge", JsonValue::Str(self.challenge.wire_name())));
        members.push(member("filename", JsonValue::Str(self.filename.clone())));
        members.push(member("language", JsonValue::Str(self.language.wire_name())));
        members.push(member("test", JsonValue::Bool(self.test)));
        let code = match &self.code {
            Some(c) => JsonValue::Str(c.clone()),
            None => JsonValue::Null,
        };
        members.push(member("code", code));
        assert(members_view(members@) =~= submission_members(*self));
        encode_object(&members)
    }

    /// The multipart form of the submission.
    pub fn to_formdata(&self) -> (r: Vec<FormPart>)
        ensures
            parts_view(r@) == submission_parts(*self),
    {
        let mut parts: Vec<FormPart> = Vec::new();
        parts.push(FormPart { name: "challenge".to_owned(), value: FormValue::Text(self.challenge.to_string()) });
        parts.push(FormPart { name: "filename".to_owned(), value: FormValue::Text(self.filename.clone()) });
        parts.push(FormPart { name: "language".to_owned(), value: FormValue::Text(self.language.to_string()) });
        let test = if self.test {
            "true".to_owned()
        } else {
            "false".to_owned()
        };
        parts.push(FormPart { name: "test".to_owned(), value: FormValue::Text(test) });
        if let Some(c) = &self.code {
            parts.push(FormPart { name: "code".to_owned(), value: FormValue::Text(c.clone()) });
        }
        if let Some(b) = &self.binary {
            parts.push(FormPart { name: "binary".to_owned(), value: FormValue::Blob(b.clone()) });
        }
        assert(parts_view(parts@) =~= submission_parts(*self));
        parts
    }
}

impl Submission {
    /// A requestor that has sent the submission to `url`: the JSON body when
    /// source text is present, the multipart form otherwise.
    pub fn sender(&self, url: &str) -> (r: Option<Requestor>)
        ensures
            r matches Some(q) && {
                &&& q.url@ == url@
                &&& q.with_credentials
                &&& q.method == crate::fetchers::Method::Post
                &&& q.retry_count == 1
                &&& q.request_in_flight && !q.refresh_in_flight && !q.state_has_changed
                &&& q.command == Command::Issue
                &&& match q.body {
                    RequestBody::Json(j) => self.code is Some && j@ == object_text(submission_members(*self)),
                    RequestBody::Form(f) => self.code is None && parts_view(f@) == submission_parts(*self),
                    RequestBody::Empty => false,
                }
            },
    {
        let mut submitter = if self.code.is_some() {
            Requestor::new_post(url, true, Some(self.to_json()))
        } else {
            Requestor::new_form_post(url, true, Some(self.to_formdata()))
        };
        submitter.send();
        Some(submitter)
    }

    /// Polls the requestor in `sender` and reads the judge's verdict.
    /// `decoded` is the verdict decoded from the reply's body, or the decoding
    /// error; it is read only when the request succeeded. A finished request
    /// is dropped from `sender`.
    pub fn check_sender(
        sender: &mut Option<Requestor>,
        session: &mut AppState,
        refresh: RefreshPoll,
        task: TaskPoll,
        decoded: Result<SubmissionResult, String>,
    ) -> (r: SubmissionResult)
        ensures
            match *old(sender) {
                None => *final(sender) is None && *final(session) == *old(session) && r is NotStarted,
                Some(q) => {
                    let (next, login, status) = poll_step(q, refresh, task);
                    &&& *final(session) == record_login(*old(session), login)
                    &&& if status.is_terminal() { *final(sender) is None } else { *final(sender) == Some(next) }
                    &&& match status {
                        StatusView::NotStarted => r is NotStarted,
                        StatusView::InProgress => r is Busy,
                        StatusView::Failed(e) => r matches SubmissionResult::Failure { message } && message@ == e,
                        StatusView::Success(_) => match decoded {
                            Ok(v) => r == v,
                            Err(e) => r matches SubmissionResult::Failure { message } && message@ == e@,
                        },
                    }
                },
            },
    {
        match sender {
            None => SubmissionResult::NotStarted,
            Some(requestor) => {
                let status = requestor.check_promise(session, refresh, task);
                match status {
                    RequestStatus::Success(_) => {
                        *sender = None;
                        match decoded {
                            Ok(v) => v,
                            Err(e) => SubmissionResult::Failure { message: e },
                        }
                    },
                    RequestStatus::Failed(e) => {
                        *sender = None;
                        SubmissionResult::Failure { message: e }
                    },
                    RequestStatus::InProgress => SubmissionResult::Busy,
                    RequestStatus::NotStarted => SubmissionResult::NotStarted,
                }
            },
        }
    }
}

impl Default for Submission {
    fn default() -> (r: Submission)
        ensures
            r.challenge == Challenges::C2332,
            r.filename@.len() == 0,
            r.language == Languages::C,
            !r.test,
            r.code is None,
            r.binary is None,
    {
        Submission {
            challenge: Challenges::default(),
            filename: String::new(),
            language: Languages::default(),
            test: false,
            code: None,
            binary: None,
        }
    }
}

/// The judge's verdict on a submission, or where its request stands.
pub enum SubmissionResult {
    NotStarted,
    Success { score: u32, message: String },
    Failure { message: String },
    NotAuthorized,
    Busy,
}

impl SubmissionResult {
    /// The text shown for the verdict.
    pub fn to_string(&self) -> (r: String)
        ensures
            r@ == match self {
                SubmissionResult::NotStarted => Seq::empty(),
                SubmissionResult::Success { message, .. } => message@,
                SubmissionResult::Failure { message } => "Failure: "@ + message@,
                SubmissionResult::NotAuthorized => "Not authorized"@,
                SubmissionResult::Busy => "Busy"@,
            },
    {
        match self {
            SubmissionResult::NotStarted => String::new(),
            SubmissionResult::Success { message, .. } => message.clone(),
            SubmissionResult::Failure { message } => crate::text::join2("Failure: ", message.as_str()),
            SubmissionResult::NotAuthorized => "Not authorized".to_owned(),
            SubmissionResult::Busy => "Busy".to_owned(),
        }
    }
}

impl Default for SubmissionResult {
    fn default() -> (r: SubmissionResult)
        ensures
            r is NotStarted,
    {
        SubmissionResult::NotStarted
    }
}

/// A submission with source text is sent as JSON whose keys are challenge,
/// filename, language, test and code, in that order, and no binary; one with
/// a binary and no source text is sent as a form with a binary part and no
/// code part.
pub proof fn lemma_submission_encodings(s: Submission)
    ensures
        s.code is Some ==> submission_members(s).map_values(|m: (Seq<char>, JsonValueView)| m.0)
            == seq!["challenge"@, "filename"@, "language"@, "test"@, "code"@],
        forall|i: int| 0 <= i < submission_members(s).len() ==> #[trigger] submission_members(s)[i].0 != "binary"@,
        (s.code is None && s.binary is Some) ==> {
            &&& exists|i: int| 0 <= i < submission_parts(s).len() && #[trigger] submission_parts(s)[i].0 == "binary"@
                && submission_parts(s)[i].1 is Blob
            &&& forall|i: int| 0 <= i < submission_parts(s).len() ==> #[trigger] submission_parts(s)[i].0 != "code"@
        },
{
    reveal_strlit("challenge");
    reveal_strlit("filename");
    reveal_strlit("language");
    reveal_strlit("test");
    reveal_strlit("code");
    reveal_strlit("binary");
    let ms = submission_members(s);
    assert(ms.map_values(|m: (Seq<char>, JsonValueView)| m.0) =~= seq!["challenge"@, "filename"@, "language"@, "test"@, "code"@]);
    assert forall|i: int| 0 <= i < ms.len() implies #[trigger] ms[i].0 != "binary"@ by {
        assert(ms[i].0.len() != "binary"@.len() || ms[i].0[0] != "binary"@[0]);
    }
    if s.code is None && s.binary is Some {
        let ps = submission_parts(s);
        assert(ps.len() == 5);
        assert(ps[4].0 == "binary"@);
        assert forall|i: int| 0 <= i < ps.len() implies #[trigger] ps[i].0 != "code"@ by {
            assert(ps[i].0.len() != "code"@.len() || ps[i].0[0] != "code"@[0] || ps[i].0[1] != "code"@[1]);
        }
    }
}

} // verus!
