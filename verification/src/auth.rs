//! The login handler: credential checking and the two login replies.

use crate::database::AUTH_CREDENTIALS;
use crate::query::{lookup, QueryParams};
use crate::response::{Response, ResponseView, StatusCode, Version};
use crate::text::str_eq;
use vstd::prelude::*;

verus! {

/// A login that succeeded.
#[derive(Debug)]
pub struct AuthLoginSuccess {
    pub ticket: String,
}

/// The body that tells the client its login succeeded.
pub open spec fn success_body(ticket: Seq<char>) -> Seq<char> {
    "Valid=TRUE\nTicket="@ + ticket
}

impl AuthLoginSuccess {
    pub fn to_response(&self) -> (body: String)
        ensures
            body@ == success_body(self.ticket@),
    {
        generate_success_response(self.ticket.as_str())
    }
}

/// A login that failed, and why.
#[derive(Debug)]
pub struct AuthLoginFailure {
    pub reason_code: String,
    pub reason_text: String,
    pub reason_url: String,
}

/// The body that tells the client its login failed.
pub open spec fn failure_body(
    reason_code: Seq<char>,
    reason_text: Seq<char>,
    reason_url: Seq<char>,
) -> Seq<char> {
    "reasoncode="@ + reason_code + "\nreasontext="@ + reason_text + "\nreasonurl="@ + reason_url
}

impl AuthLoginFailure {
    pub fn to_response(&self) -> (body: String)
        ensures
            body@ == failure_body(self.reason_code@, self.reason_text@, self.reason_url@),
    {
        generate_failure_response(
            self.reason_code.as_str(),
            self.reason_text.as_str(),
            self.reason_url.as_str(),
        )
    }
}

pub fn generate_success_response(ticket: &str) -> (body: String)
    ensures
        body@ == success_body(ticket@),
{
    let mut body: String = String::from_str("Valid=TRUE\nTicket=");
    body.append(ticket);
    body
}

pub fn generate_failure_response(reason_code: &str, reason_text: &str, reason_url: &str) -> (body:
    String)
    ensures
        body@ == failure_body(reason_code@, reason_text@, reason_url@),
{
    let mut body: String = String::from_str("reasoncode=");
    body.append(reason_code);
    body.append("\nreasontext=");
    body.append(reason_text);
    body.append("\nreasonurl=");
    body.append(reason_url);
    body
}

/// The capability to check a user name and a password. What a validator
/// answers depends on the validator and the pair alone.
pub trait UserValidator: Send + Sync {
    /// Whether this validator takes the pair for valid.
    spec fn accepts(&self, username: Seq<char>, password: Seq<char>) -> bool;

    fn validate_user(&self, username: &str, password: &str) -> (valid: bool)
        ensures
            valid == self.accepts(username@, password@),
    ;
}

/// The validator with one fixed pair: `valid_user` and `valid_password`.
#[derive(Clone, Copy, Debug)]
pub struct Database;

impl UserValidator for Database {
    open spec fn accepts(&self, username: Seq<char>, password: Seq<char>) -> bool {
        username == "valid_user"@ && password == "valid_password"@
    }

    fn validate_user(&self, username: &str, password: &str) -> (valid: bool) {
        str_eq(username, "valid_user") && str_eq(password, "valid_password")
    }
}

/// The validator that takes exactly the active pair for valid.
impl UserValidator for AUTH_CREDENTIALS {
    open spec fn accepts(&self, username: Seq<char>, password: Seq<char>) -> bool {
        username == self@.0 && password == self@.1
    }

    fn validate_user(&self, username: &str, password: &str) -> (valid: bool) {
        let (active_name, active_password): (String, String) = self.get_credentials();
        str_eq(username, active_name.as_str()) && str_eq(password, active_password.as_str())
    }
}

/// How a login attempt ended.
#[derive(Debug)]
pub enum AuthOutcome {
    Success(AuthLoginSuccess),
    Failure(AuthLoginFailure),
}

/// The mathematical content of an [`AuthOutcome`].
pub enum AuthOutcomeView {
    Success { ticket: Seq<char> },
    Failure { reason_code: Seq<char>, reason_text: Seq<char>, reason_url: Seq<char> },
}

impl View for AuthOutcome {
    type V = AuthOutcomeView;

    open spec fn view(&self) -> AuthOutcomeView {
        match self {
            AuthOutcome::Success(success) => AuthOutcomeView::Success { ticket: success.ticket@ },
            AuthOutcome::Failure(failure) => AuthOutcomeView::Failure {
                reason_code: failure.reason_code@,
                reason_text: failure.reason_text@,
                reason_url: failure.reason_url@,
            },
        }
    }
}

/// Whether a request with the parameters `query` logs in with the validator
/// `db`: it names a user and a password, and the validator accepts the pair.
pub open spec fn login_accepted<V: UserValidator>(
    db: &V,
    query: Map<Seq<char>, Seq<char>>,
) -> bool {
    &&& query.dom().contains("username"@)
    &&& query.dom().contains("password"@)
    &&& db.accepts(query["username"@], query["password"@])
}

/// The outcome of a login attempt: the ticket where it was accepted, the
/// fixed reason where it was not.
pub open spec fn login_outcome(accepted: bool) -> AuthOutcomeView {
    if accepted {
        AuthOutcomeView::Success { ticket: "<auth_ticket>"@ }
    } else {
        AuthOutcomeView::Failure {
            reason_code: "INV-100"@,
            reason_text: "Invalid username or password"@,
            reason_url: "https://winehq.com"@,
        }
    }
}

/// The status a login outcome is answered with.
pub open spec fn outcome_status(outcome: AuthOutcomeView) -> int {
    match outcome {
        AuthOutcomeView::Success { .. } => 200,
        AuthOutcomeView::Failure { .. } => 401,
    }
}

/// The body a login outcome is answered with.
pub open spec fn outcome_body(outcome: AuthOutcomeView) -> Seq<char> {
    match outcome {
        AuthOutcomeView::Success { ticket } => success_body(ticket),
        AuthOutcomeView::Failure { reason_code, reason_text, reason_url } => failure_body(
            reason_code,
            reason_text,
            reason_url,
        ),
    }
}

/// The headers of a login reply.
pub open spec fn auth_headers() -> Seq<(Seq<char>, Seq<char>)> {
    seq![("Connection"@, "close"@), ("Content-Type"@, "text/plain; charset=utf-8"@)]
}

/// The reply to a login attempt with the given outcome.
pub open spec fn outcome_reply(outcome: AuthOutcomeView) -> ResponseView {
    ResponseView {
        status: outcome_status(outcome),
        version: Version::Http10,
        headers: auth_headers(),
        body: outcome_body(outcome),
    }
}

/// With the fixed pair, a request logs in exactly where its parameters name
/// the user `valid_user` and the password `valid_password`.
pub proof fn lemma_fixed_pair_login(query: Map<Seq<char>, Seq<char>>)
    ensures
        login_accepted(&Database, query) <==> lookup(query, "username"@) == Some("valid_user"@)
            && lookup(query, "password"@) == Some("valid_password"@),
{
}

/// With the active credentials, a request logs in exactly where its
/// parameters name the active user and the active password.
pub proof fn lemma_active_pair_login(
    credentials: &AUTH_CREDENTIALS,
    query: Map<Seq<char>, Seq<char>>,
)
    ensures
        login_accepted(credentials, query) <==> lookup(query, "username"@) == Some(credentials@.0)
            && lookup(query, "password"@) == Some(credentials@.1),
{
}

/// An accepted login is answered with status 200 and a body that says
/// `Valid=TRUE` and carries a ticket that is not empty; any other login with
/// status 401 and the one fixed reason.
pub proof fn lemma_login_replies(accepted: bool)
    ensures
        accepted ==> outcome_reply(login_outcome(accepted)).status == 200,
        accepted ==> outcome_reply(login_outcome(accepted)).body
            == "Valid=TRUE\nTicket=<auth_ticket>"@,
        accepted ==> (login_outcome(accepted) matches AuthOutcomeView::Success { ticket }
            && ticket.len() > 0),
        !accepted ==> outcome_reply(login_outcome(accepted)).status == 401,
        !accepted ==> outcome_reply(login_outcome(accepted)).body
            == "reasoncode=INV-100\nreasontext=Invalid username or password\nreasonurl=https://winehq.com"@,
{
    reveal_strlit("Valid=TRUE\nTicket=");
    reveal_strlit("<auth_ticket>");
    reveal_strlit("Valid=TRUE\nTicket=<auth_ticket>");
    reveal_strlit("reasoncode=");
    reveal_strlit("INV-100");
    reveal_strlit("\nreasontext=");
    reveal_strlit("Invalid username or password");
    reveal_strlit("\nreasonurl=");
    reveal_strlit("https://winehq.com");
    reveal_strlit(
        "reasoncode=INV-100\nreasontext=Invalid username or password\nreasonurl=https://winehq.com",
    );
    assert("Valid=TRUE\nTicket="@ + "<auth_ticket>"@ =~= "Valid=TRUE\nTicket=<auth_ticket>"@);
    assert(failure_body("INV-100"@, "Invalid username or password"@, "https://winehq.com"@)
        =~= "reasoncode=INV-100\nreasontext=Invalid username or password\nreasonurl=https://winehq.com"@);
}

/// The outcome of a login attempt that the validator accepted or not.
pub fn auth_outcome(accepted: bool) -> (outcome: AuthOutcome)
    ensures
        outcome@ == login_outcome(accepted),
{
    if accepted {
        AuthOutcome::Success(AuthLoginSuccess { ticket: String::from_str("<auth_ticket>") })
    } else {
        AuthOutcome::Failure(
            AuthLoginFailure {
                reason_code: String::from_str("INV-100"),
                reason_text: String::from_str("Invalid username or password"),
                reason_url: String::from_str("https://winehq.com"),
            },
        )
    }
}

/// Checks the `username` and `password` parameters of a request with the
/// validator. A request that lacks one of the two is not accepted, and the
/// validator is not asked.
pub fn authenticate<V: UserValidator>(query: &QueryParams, db: &V) -> (outcome: AuthOutcome)
    ensures
        outcome@ == login_outcome(login_accepted(db, query@)),
{
    let accepted: bool = match (query.get("username"), query.get("password")) {
        (Some(username), Some(password)) => db.validate_user(username, password),
        _ => false,
    };
    auth_outcome(accepted)
}

/// Renders the reply to a login attempt: 200 with the ticket, or 401 with
/// the reason.
pub fn auth_response(outcome: &AuthOutcome) -> (resp: Response)
    ensures
        resp@ == outcome_reply(outcome@),
{
    let (status, body): (StatusCode, String) = match outcome {
        AuthOutcome::Success(success) => (StatusCode::ok(), success.to_response()),
        AuthOutcome::Failure(failure) => (StatusCode::unauthorized(), failure.to_response()),
    };
    let mut headers: Vec<(String, String)> = Vec::new();
    headers.push((String::from_str("Connection"), String::from_str("close")));
    headers.push(
        (String::from_str("Content-Type"), String::from_str("text/plain; charset=utf-8")),
    );
    assert(headers.deep_view() =~= auth_headers());
    Response::new(status, Version::Http10, headers, body)
}

/// Answers a login request: the reply for the outcome that the validator
/// decides on the `username` and `password` parameters.
pub fn handle_auth_login<V: UserValidator>(query: &QueryParams, db: &V) -> (resp: Response)
    ensures
        resp@ == outcome_reply(login_outcome(login_accepted(db, query@))),
{
    let outcome: AuthOutcome = authenticate(query, db);
    auth_response(&outcome)
}

} // verus!
