//! The three tiers of client, the login with a password grant, and the
//! one new login that an authenticated client tries when it is turned
//! away.

use crate::config::Config;
use crate::decode::str_field;
use crate::endpoint::EndpointBuilder;
use crate::error::ExecuteError;
use crate::executor::Failure;
use crate::form::FormBuilder;
use crate::json::{Json, JsonValue};
use vstd::prelude::*;
use vstd::string::StringExecFns;

verus! {

/// The host of the public site, at which tokens are issued and revoked and
/// to which clients without a password talk.
pub const PUBLIC_BASE_URL: &'static str = "https://www.reddit.com";

/// The host to which clients with a password talk.
pub const OAUTH_BASE_URL: &'static str = "https://oauth.reddit.com";

/// The user agent of the client that is not authenticated.
pub const GENERIC_USER_AGENT: &'static str = "generic-client";

/// The text of the error for a response of the token endpoint that neither
/// issues a token nor refuses.
pub const UNREADABLE_LOGIN: &'static str = "unexpected login response";

/// The request that asks the token endpoint for an access token.
#[derive(Debug)]
pub struct LoginRequest {
    /// The host that issues tokens.
    pub base_url: &'static str,
    /// The token endpoint, without the `.json` suffix.
    pub endpoint: EndpointBuilder,
    /// The form of the password grant.
    pub form: FormBuilder,
    /// The user of the HTTP Basic authorization.
    pub client_id: String,
    /// The password of the HTTP Basic authorization.
    pub client_secret: String,
}

/// The request for a token: a POST of the form
/// `grant_type=password&username=U&password=P` to `api/v1/access_token`
/// on the public host, authorized with the client's id and secret. It is
/// refused, as authorization required, where the user name or the password
/// is not set.
pub fn login_request(config: &Config) -> (r: Result<LoginRequest, ExecuteError>)
    ensures
        r is Ok <==> config.username is Some && config.password is Some,
        r matches Err(e) ==> e == ExecuteError::AuthorizationRequired,
        r matches Ok(request) ==> {
            &&& request.base_url@ == PUBLIC_BASE_URL@
            &&& request.endpoint.path@ == "api/v1/access_token"@
            &&& request.endpoint.query@.len() == 0
            &&& !request.endpoint.with_dot_json
            &&& request.form@ == seq![
                ("grant_type"@, "password"@),
                ("username"@, config.username->0@),
                ("password"@, config.password->0@),
            ]
            &&& request.client_id@ == config.client_id@
            &&& request.client_secret@ == config.client_secret@
        },
{
    let username = match &config.username {
        Some(username) => username,
        None => {
            return Err(ExecuteError::AuthorizationRequired);
        },
    };
    let password = match &config.password {
        Some(password) => password,
        None => {
            return Err(ExecuteError::AuthorizationRequired);
        },
    };
    let mut endpoint = EndpointBuilder::new("api/v1/access_token");
    endpoint.with_dot_json = false;
    let form = FormBuilder::empty().with("grant_type", "password").with(
        "username",
        username.as_str(),
    ).with("password", password.as_str());
    proof {
        assert(form@ =~= seq![
            ("grant_type"@, "password"@),
            ("username"@, config.username->0@),
            ("password"@, config.password->0@),
        ]);
    }
    Ok(
        LoginRequest {
            base_url: PUBLIC_BASE_URL,
            endpoint,
            form,
            client_id: config.client_id.clone(),
            client_secret: config.client_secret.clone(),
        },
    )
}

/// What the token endpoint says.
pub enum LoginAnswer {
    /// It issued this token.
    Token(Seq<char>),
    /// It refused the credentials, for this reason.
    Refused(Seq<char>),
    /// It said something else.
    Unreadable,
}

/// What a response of the token endpoint says: an object with a string
/// `access_token` issues it; otherwise one with a string `error` refuses.
pub open spec fn login_answer(doc: JsonValue) -> LoginAnswer {
    match str_field(doc, "access_token"@) {
        Some(token) => LoginAnswer::Token(token),
        None => match str_field(doc, "error"@) {
            Some(reason) => LoginAnswer::Refused(reason),
            None => LoginAnswer::Unreadable,
        },
    }
}

/// Reads the response of the token endpoint: the token, or an
/// authorization error with the reason that the endpoint gave.
pub fn decode_login_response(doc: &Json) -> (r: Result<String, ExecuteError>)
    ensures
        match login_answer(doc@) {
            LoginAnswer::Token(token) => r matches Ok(t) && t@ == token,
            LoginAnswer::Refused(reason) => r matches Err(ExecuteError::AuthError(e)) && e@
                == reason,
            LoginAnswer::Unreadable => r matches Err(ExecuteError::ErrorOnly(m)) && m@
                == UNREADABLE_LOGIN@,
        },
{
    match crate::decode::req_str(doc, "access_token") {
        Ok(token) => Ok(token),
        Err(_) => match crate::decode::req_str(doc, "error") {
            Ok(reason) => Err(ExecuteError::AuthError(reason)),
            Err(_) => Err(ExecuteError::ErrorOnly(String::from_str(UNREADABLE_LOGIN))),
        },
    }
}

/// The value of the `Authorization` header that carries a token.
pub fn bearer_header(access_token: &str) -> (r: String)
    ensures
        r@ == "Bearer "@ + access_token@,
{
    let mut header = String::from_str("Bearer ");
    header.append(access_token);
    header
}

/// The headers that an OAuth client sends with every request: the user
/// agent and, where the configuration brings an access token, the
/// authorization with it.
pub fn default_headers(config: &Config) -> (r: Vec<(String, String)>)
    ensures
        r@.len() == if config.access_token is Some {
            2int
        } else {
            1int
        },
        r@[0].0@ == "User-Agent"@,
        r@[0].1@ == config.user_agent@,
        config.access_token matches Some(token) ==> r@[1].0@ == "Authorization"@ && r@[1].1@
            == "Bearer "@ + token@,
{
    let mut headers: Vec<(String, String)> = Vec::new();
    headers.push((String::from_str("User-Agent"), config.user_agent.clone()));
    match &config.access_token {
        Some(token) => {
            headers.push((String::from_str("Authorization"), bearer_header(token.as_str())));
        },
        None => {},
    }
    headers
}

/// How one call of the executor ended.
#[derive(Debug, Clone, Copy, PartialEq, Eq, Structural)]
pub enum Executed {
    /// The response was delivered.
    Delivered,
    /// The executor gave up.
    Failed(Failure),
}

/// What happens to an authenticated client in the course of one request.
#[derive(Debug, Clone, Copy, PartialEq, Eq, Structural)]
pub enum AuthedEvent {
    /// A call of the executor ended.
    Executed(Executed),
    /// A new login ended, with a token or without.
    LoggedIn(bool),
}

/// What an authenticated client does next.
#[derive(Debug, Clone, Copy, PartialEq, Eq, Structural)]
pub enum AuthedAction {
    /// Hand the response to the caller.
    Deliver,
    /// Log in again, holding the token cell for writing.
    Relogin,
    /// Store the new token and send the same request again.
    Resend,
    /// Give up: a second refusal shows as credentials not set.
    FailCredentialsNotSet,
    /// Give up with the failure of the executor.
    FailExecute(Failure),
    /// Give up with the failure of the login.
    FailLogin,
}

/// The state of one request of an authenticated client: whether it has
/// logged in again, and whether it waits for that login to end.
#[derive(Debug, Clone, Copy, PartialEq, Eq, Structural)]
pub struct AuthedRetry {
    /// Whether a new login was tried for this request.
    pub has_retried: bool,
    /// Whether a new login is under way.
    pub logging_in: bool,
}

impl AuthedRetry {
    /// The state at the start of a request.
    pub fn new() -> (r: Self)
        ensures
            r == (AuthedRetry { has_retried: false, logging_in: false }),
    {
        AuthedRetry { has_retried: false, logging_in: false }
    }

    /// What follows from an event. The first refusal for want of
    /// authorization starts one new login; after it the request is sent
    /// once more; a second refusal ends the request. Every other failure
    /// ends it at once. An event that does not fit the state, a login
    /// that was not asked for or a response during a login, counts as a
    /// failed login.
    pub open spec fn decide(self, event: AuthedEvent) -> AuthedAction {
        match event {
            AuthedEvent::Executed(executed) => if self.logging_in {
                AuthedAction::FailLogin
            } else {
                match executed {
                    Executed::Delivered => AuthedAction::Deliver,
                    Executed::Failed(Failure::Unauthorized) => if self.has_retried {
                        AuthedAction::FailCredentialsNotSet
                    } else {
                        AuthedAction::Relogin
                    },
                    Executed::Failed(failure) => AuthedAction::FailExecute(failure),
                }
            },
            AuthedEvent::LoggedIn(ok) => if self.logging_in && ok {
                AuthedAction::Resend
            } else {
                AuthedAction::FailLogin
            },
        }
    }

    /// The state after an event.
    pub open spec fn after(self, event: AuthedEvent) -> AuthedRetry {
        match self.decide(event) {
            AuthedAction::Relogin => AuthedRetry { has_retried: true, logging_in: true },
            AuthedAction::Resend => AuthedRetry { has_retried: true, logging_in: false },
            _ => self,
        }
    }

    /// Takes an event and says what to do next.
    pub fn step(&mut self, event: AuthedEvent) -> (action: AuthedAction)
        ensures
            action == old(self).decide(event),
            *final(self) == old(self).after(event),
    {
        match event {
            AuthedEvent::Executed(executed) => {
                if self.logging_in {
                    return AuthedAction::FailLogin;
                }
                match executed {
                    Executed::Delivered => AuthedAction::Deliver,
                    Executed::Failed(Failure::Unauthorized) => {
                        if self.has_retried {
                            AuthedAction::FailCredentialsNotSet
                        } else {
                            self.has_retried = true;
                            self.logging_in = true;
                            AuthedAction::Relogin
                        }
                    },
                    Executed::Failed(failure) => AuthedAction::FailExecute(failure),
                }
            },
            AuthedEvent::LoggedIn(ok) => {
                if self.logging_in && ok {
                    self.has_retried = true;
                    self.logging_in = false;
                    AuthedAction::Resend
                } else {
                    AuthedAction::FailLogin
                }
            },
        }
    }
}

/// How a request of an authenticated client ends.
pub enum AuthedEnding {
    /// The response was delivered, after this many new logins.
    Delivered { relogins: nat },
    /// The request failed with credentials not set.
    CredentialsNotSet,
    /// The request failed with the failure of the executor.
    Execute(Failure),
    /// The request failed with the failure of the login.
    Login,
    /// The events ran out before the request ended.
    Unfinished,
}

/// A request of an authenticated client as a whole, on its events in
/// order. Events after the one that ends the request are not looked at.
pub open spec fn run_authed(state: AuthedRetry, events: Seq<AuthedEvent>, relogins: nat)
    -> AuthedEnding
    decreases events.len(),
{
    if events.len() == 0 {
        AuthedEnding::Unfinished
    } else {
        match state.decide(events[0]) {
            AuthedAction::Deliver => AuthedEnding::Delivered { relogins },
            AuthedAction::FailCredentialsNotSet => AuthedEnding::CredentialsNotSet,
            AuthedAction::FailExecute(failure) => AuthedEnding::Execute(failure),
            AuthedAction::FailLogin => AuthedEnding::Login,
            AuthedAction::Relogin => run_authed(
                state.after(events[0]),
                events.drop_first(),
                relogins + 1,
            ),
            AuthedAction::Resend => run_authed(
                state.after(events[0]),
                events.drop_first(),
                relogins,
            ),
        }
    }
}

/// One refusal, a new login that succeeds, and a response that is
/// delivered: the caller sees exactly one success, after one new login.
pub proof fn lemma_relogin_then_success()
    ensures
        run_authed(
            AuthedRetry { has_retried: false, logging_in: false },
            seq![
                AuthedEvent::Executed(Executed::Failed(Failure::Unauthorized)),
                AuthedEvent::LoggedIn(true),
                AuthedEvent::Executed(Executed::Delivered),
            ],
            0,
        ) == (AuthedEnding::Delivered { relogins: 1 }),
{
    let events = seq![
        AuthedEvent::Executed(Executed::Failed(Failure::Unauthorized)),
        AuthedEvent::LoggedIn(true),
        AuthedEvent::Executed(Executed::Delivered),
    ];
    let rest = events.drop_first();
    let last = rest.drop_first();
    assert(rest[0] == AuthedEvent::LoggedIn(true));
    assert(last[0] == AuthedEvent::Executed(Executed::Delivered));
    reveal_with_fuel(run_authed, 4);
}

/// A refusal, a new login that succeeds, and a second refusal: the request
/// fails with credentials not set, whatever follows.
pub proof fn lemma_refused_twice(later: Seq<AuthedEvent>)
    ensures
        run_authed(
            AuthedRetry { has_retried: false, logging_in: false },
            seq![
                AuthedEvent::Executed(Executed::Failed(Failure::Unauthorized)),
                AuthedEvent::LoggedIn(true),
                AuthedEvent::Executed(Executed::Failed(Failure::Unauthorized)),
            ] + later,
            0,
        ) == AuthedEnding::CredentialsNotSet,
{
    let events = seq![
        AuthedEvent::Executed(Executed::Failed(Failure::Unauthorized)),
        AuthedEvent::LoggedIn(true),
        AuthedEvent::Executed(Executed::Failed(Failure::Unauthorized)),
    ] + later;
    let rest = events.drop_first();
    let last = rest.drop_first();
    assert(events[0] == AuthedEvent::Executed(Executed::Failed(Failure::Unauthorized)));
    assert(rest[0] == AuthedEvent::LoggedIn(true));
    assert(last[0] == AuthedEvent::Executed(Executed::Failed(Failure::Unauthorized)));
    reveal_with_fuel(run_authed, 4);
}

/// A request never logs in again more than once.
pub proof fn lemma_at_most_one_relogin(state: AuthedRetry, events: Seq<AuthedEvent>, relogins: nat)
    ensures
        run_authed(state, events, relogins) matches AuthedEnding::Delivered { relogins: n } ==> n
            <= relogins + 1 && (state.has_retried ==> n == relogins),
    decreases events.len(),
{
    if events.len() > 0 {
        match state.decide(events[0]) {
            AuthedAction::Relogin => {
                lemma_at_most_one_relogin(
                    state.after(events[0]),
                    events.drop_first(),
                    relogins + 1,
                );
            },
            AuthedAction::Resend => {
                lemma_at_most_one_relogin(state.after(events[0]), events.drop_first(), relogins);
            },
            _ => {},
        }
    }
}

} // verus!
