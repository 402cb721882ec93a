//! Account actions: login, logout, registration, and password recovery. The
//! request bodies, the checks made before a form is sent, and the requests
//! each action sends.

use vstd::prelude::*;
use crate::fetchers::{is_fresh, send_step, Command, Method, RequestBody, Requestor};
use crate::json::{encode_object, member, members_view, object_text, JsonMember, JsonValue, JsonValueView};
use crate::refresh::{is_success_status, status_is_success};
use crate::text::{contains_seq, contains_str, join2, join3, str_eq};

verus! {

pub const LOGIN_PATH: &'static str = "api/auth/login";
pub const LOGOUT_PATH: &'static str = "api/auth/logout";
pub const REGISTER_PATH: &'static str = "api/auth/register";
pub const FORGOT_PASSWORD_PATH: &'static str = "api/auth/forgotpassword";
/// Followed by the reset token.
pub const RESET_PASSWORD_PATH: &'static str = "api/auth/resetpassword/";

/// The domain that registering addresses must contain unless another is configured.
pub const DEFAULT_ALLOWED_DOMAIN: &'static str = "dummy.com";

pub const PASSWORDS_DIFFER: &'static str = "Passwords do not match";
pub const INVALID_EMAIL: &'static str = "Invalid email address";
/// Followed by the allowed domain.
pub const WRONG_DOMAIN: &'static str = "Email must be from ";

/// Whether `email_address` accepts `s` as an email address.
pub uninterp spec fn valid_email(s: Seq<char>) -> bool;

/// Relies on `email_address::EmailAddress::is_valid`: whether the text parses
/// as an email address, which depends on the text alone.
#[verifier::external_body]
fn is_email_address(s: &str) -> (r: bool)
    ensures
        r == valid_email(s@),
{
    email_address::EmailAddress::is_valid(s)
}

pub struct LoginSchema {
    pub email: String,
    pub password: String,
}

pub struct ForgotPasswordSchema {
    pub email: String,
}

pub struct RegisterSchema {
    pub name: String,
    pub email: String,
    pub password: String,
    /// Checked against `password`; never sent.
    pub confirm_password: String,
}

pub struct ResetPasswordSchema {
    pub password: String,
}

/// The reply to a registration or a password-reset request.
pub struct RegisterResponse {
    pub status: String,
    pub message: String,
}

/// The reply to a login.
pub enum LoginResponse {
    Success { status: String, access_token: String },
    Failure { status: String, message: String },
}

pub open spec fn login_members(s: LoginSchema) -> Seq<(Seq<char>, JsonValueView)> {
    seq![("email"@, JsonValueView::Str(s.email@)), ("password"@, JsonValueView::Str(s.password@))]
}

pub open spec fn forgot_password_members(s: ForgotPasswordSchema) -> Seq<(Seq<char>, JsonValueView)> {
    seq![("email"@, JsonValueView::Str(s.email@))]
}

pub open spec fn register_members(s: RegisterSchema) -> Seq<(Seq<char>, JsonValueView)> {
    seq![
        ("name"@, JsonValueView::Str(s.name@)),
        ("email"@, JsonValueView::Str(s.email@)),
        ("password"@, JsonValueView::Str(s.password@)),
    ]
}

pub open spec fn reset_password_members(s: ResetPasswordSchema) -> Seq<(Seq<char>, JsonValueView)> {
    seq![("password"@, JsonValueView::Str(s.password@))]
}

/// The first check a registration fails, in the order passwords equal,
/// address valid, address within `domain`; `None` when it passes all.
pub open spec fn register_error(s: RegisterSchema, domain: Seq<char>) -> Option<Seq<char>> {
    if s.password@ != s.confirm_password@ {
        Some(PASSWORDS_DIFFER@)
    } else if !valid_email(s.email@) {
        Some(INVALID_EMAIL@)
    } else if !contains_seq(s.email@, domain) {
        Some(WRONG_DOMAIN@ + domain)
    } else {
        None
    }
}

/// The first check a password reset fails, in the order passwords equal,
/// address valid; `None` when it passes both.
pub open spec fn reset_error(email: Seq<char>, password: Seq<char>, confirm: Seq<char>) -> Option<Seq<char>> {
    if password != confirm {
        Some(PASSWORDS_DIFFER@)
    } else if !valid_email(email) {
        Some(INVALID_EMAIL@)
    } else {
        None
    }
}

impl LoginSchema {
    pub fn to_forgot_password(&self) -> (r: ForgotPasswordSchema)
        ensures
            r.email@ == self.email@,
    {
        ForgotPasswordSchema { email: self.email.clone() }
    }

    pub fn to_json(&self) -> (r: String)
        ensures
            r@ == object_text(login_members(*self)),
    {
        let mut members: Vec<JsonMember> = Vec::new();
        members.push(member("email", JsonValue::Str(self.email.clone())));
        members.push(member("password", JsonValue::Str(self.password.clone())));
        assert(members_view(members@) =~= login_members(*self));
        encode_object(&members)
    }
}

impl ForgotPasswordSchema {
    pub fn to_json(&self) -> (r: String)
        ensures
            r@ == object_text(forgot_password_members(*self)),
    {
        let mut members: Vec<JsonMember> = Vec::new();
        members.push(member("email", JsonValue::Str(self.email.clone())));
        assert(members_view(members@) =~= forgot_password_members(*self));
        encode_object(&members)
    }
}

impl RegisterSchema {
    pub fn to_json(&self) -> (r: String)
        ensures
            r@ == object_text(register_members(*self)),
    {
        let mut members: Vec<JsonMember> = Vec::new();
        members.push(member("name", JsonValue::Str(self.name.clone())));
        members.push(member("email", JsonValue::Str(self.email.clone())));
        members.push(member("password", JsonValue::Str(self.password.clone())));
        assert(members_view(members@) =~= register_members(*self));
        encode_object(&members)
    }

    /// Checks the form before it is sent; `allowed_domain` is text the
    /// address must contain.
    pub fn validate(&self, allowed_domain: &str) -> (r: Result<(), String>)
        ensures
            match r {
                Ok(()) => register_error(*self, allowed_domain@) is None,
                Err(e) => register_error(*self, allowed_domain@) == Some(e@),
            },
    {
        if self.password != self.confirm_password {
            return Err(PASSWORDS_DIFFER.to_owned());
        }
        if !is_email_address(self.email.as_str()) {
            return Err(INVALID_EMAIL.to_owned());
        }
        if !contains_str(self.email.as_str(), allowed_domain) {
            return Err(join2(WRONG_DOMAIN, allowed_domain));
        }
        Ok(())
    }
}

impl ResetPasswordSchema {
    pub fn to_json(&self) -> (r: String)
        ensures
            r@ == object_text(reset_password_members(*self)),
    {
        let mut members: Vec<JsonMember> = Vec::new();
        members.push(member("password", JsonValue::Str(self.password.clone())));
        assert(members_view(members@) =~= reset_password_members(*self));
        encode_object(&members)
    }
}

/// Checks the password-reset form before it is sent.
pub fn validate_reset(email: &str, new_password: &str, confirm_password: &str) -> (r: Result<(), String>)
    ensures
        match r {
            Ok(()) => reset_error(email@, new_password@, confirm_password@) is None,
            Err(e) => reset_error(email@, new_password@, confirm_password@) == Some(e@),
        },
{
    if !str_eq(new_password, confirm_password) {
        return Err(PASSWORDS_DIFFER.to_owned());
    }
    if !is_email_address(email) {
        return Err(INVALID_EMAIL.to_owned());
    }
    Ok(())
}

impl RegisterResponse {
    /// The reply's status is "success", in any case.
    pub fn is_success(&self) -> (r: bool)
        ensures
            r == is_success_status(self.status@),
    {
        status_is_success(self.status.as_str())
    }
}

impl LoginResponse {
    pub fn is_success(&self) -> (r: bool)
        ensures
            r == (self is Success),
    {
        match self {
            LoginResponse::Success { .. } => true,
            LoginResponse::Failure { .. } => false,
        }
    }
}

/// `r` is a sent POST to `url` with a JSON body of `text` (or none).
pub open spec fn is_sent_post(r: Requestor, url: Seq<char>, with_credentials: bool, text: Option<Seq<char>>) -> bool {
    &&& r == send_step(Requestor { command: Command::Idle, request_in_flight: false, ..r })
    &&& is_fresh(Requestor { command: Command::Idle, request_in_flight: false, ..r })
    &&& r.url@ == url
    &&& r.with_credentials == with_credentials
    &&& r.method == Method::Post
    &&& match text {
        Some(t) => r.body matches RequestBody::Json(j) && j@ == t,
        None => r.body is Empty,
    }
}

fn sent_post(url: &str, with_credentials: bool, body: Option<String>) -> (r: Requestor)
    ensures
        is_sent_post(r, url@, with_credentials, match body {
            Some(b) => Some(b@),
            None => None,
        }),
{
    let mut req = Requestor::new_post(url, with_credentials, body);
    req.send();
    req
}

/// Logs in with the backend at `base`; the reply sets the session cookie.
pub fn submit_login(base: &str, login: &LoginSchema) -> (r: Requestor)
    ensures
        is_sent_post(r, base@ + LOGIN_PATH@, true, Some(object_text(login_members(*login)))),
{
    let url = join2(base, LOGIN_PATH);
    sent_post(url.as_str(), true, Some(login.to_json()))
}

pub fn submit_logout(base: &str) -> (r: Requestor)
    ensures
        is_sent_post(r, base@ + LOGOUT_PATH@, true, None),
{
    let url = join2(base, LOGOUT_PATH);
    sent_post(url.as_str(), true, None)
}

pub fn submit_register(base: &str, register: &RegisterSchema) -> (r: Requestor)
    ensures
        is_sent_post(r, base@ + REGISTER_PATH@, false, Some(object_text(register_members(*register)))),
{
    let url = join2(base, REGISTER_PATH);
    sent_post(url.as_str(), false, Some(register.to_json()))
}

pub fn submit_forgot_password(base: &str, login: &LoginSchema) -> (r: Requestor)
    ensures
        is_sent_post(
            r,
            base@ + FORGOT_PASSWORD_PATH@,
            false,
            Some(object_text(seq![("email"@, JsonValueView::Str(login.email@))])),
        ),
{
    let url = join2(base, FORGOT_PASSWORD_PATH);
    sent_post(url.as_str(), false, Some(login.to_forgot_password().to_json()))
}

/// Sets a new password with the reset `token` sent by email.
pub fn submit_reset(base: &str, token: &str, new_password: &str) -> (r: Requestor)
    ensures
        is_sent_post(
            r,
            base@ + RESET_PASSWORD_PATH@ + token@,
            true,
            Some(object_text(seq![("password"@, JsonValueView::Str(new_password@))])),
        ),
{
    let url = join3(base, RESET_PASSWORD_PATH, token);
    let body = ResetPasswordSchema { password: new_password.to_owned() };
    sent_post(url.as_str(), true, Some(body.to_json()))
}

} // verus!
