use roux::auth::{
    bearer_header, decode_login_response, default_headers, login_request, AuthedAction,
    AuthedEvent, AuthedRetry, Executed,
};
use roux::config::Config;
use roux::error::{ExecuteError, RedditFailure, RouxError, RouxErrorKind};
use roux::executor::{
    backoff_seconds, classify, classify_fault, classify_status, Action, Classification, Failure,
    Observed, RetryState, TransportFault,
};
use roux::json::Json;
use roux::ratelimit::{parse_milli, parse_signed_milli, Ratelimit, RatelimitHeaders};
use roux::text::parse_u64;

#[test]
fn classification_table() {
    assert_eq!(classify_status(200, None), Classification::Success);
    assert_eq!(classify_status(204, Some("3")), Classification::Success);
    assert_eq!(classify_status(302, None), Classification::Success);
    assert_eq!(classify_status(401, None), Classification::Unauthorized);
    assert_eq!(classify_status(429, Some("2")), Classification::RetryAfter(2));
    assert_eq!(
        classify_status(429, None),
        Classification::RetryExponential { max_retries: None }
    );
    assert_eq!(
        classify_status(429, Some("soon")),
        Classification::RetryExponential { max_retries: None }
    );
    assert_eq!(classify_status(400, None), Classification::BadRequest);
    assert_eq!(
        classify_status(500, Some("2")),
        Classification::RetryExponential { max_retries: Some(32) }
    );
    assert_eq!(classify_status(404, None), Classification::TerminalStatus);
    assert_eq!(classify_status(503, None), Classification::TerminalStatus);
    assert_eq!(classify_status(599, None), Classification::TerminalStatus);
    assert_eq!(classify_status(600, None), Classification::Success);
    assert_eq!(
        classify_fault(TransportFault::ConnectionAborted),
        Classification::RetryExponential { max_retries: Some(16) }
    );
    assert_eq!(
        classify_fault(TransportFault::ConnectionReset),
        Classification::RetryExponential { max_retries: Some(16) }
    );
    assert_eq!(classify_fault(TransportFault::Other), Classification::TerminalNetwork);
    assert_eq!(
        classify(&Observed::Status { code: 429, retry_after: Some(String::from("7")) }),
        Classification::RetryAfter(7)
    );
    assert_eq!(
        classify(&Observed::Transport(TransportFault::Other)),
        Classification::TerminalNetwork
    );
}

#[test]
fn backoff_is_the_smaller_of_sixty_and_a_power_of_two() {
    let expected = [1u64, 2, 4, 8, 16, 32, 60, 60];
    for (n, seconds) in expected.iter().enumerate() {
        assert_eq!(backoff_seconds(n as u32), *seconds);
    }
    assert_eq!(backoff_seconds(64), 60);
    assert_eq!(backoff_seconds(u32::MAX), 60);
}

fn run(outcomes: &[Observed]) -> (Action, u64, u32) {
    let mut state = RetryState::new();
    let mut slept = 0;
    for outcome in outcomes {
        match state.observe(outcome) {
            Action::SleepThenRetry { seconds } => slept += seconds,
            done => return (done, slept, state.retries),
        }
    }
    panic!("the outcomes ran out");
}

fn status(code: u16) -> Observed {
    Observed::Status { code, retry_after: None }
}

#[test]
fn server_errors_then_success_sleeps_the_sum_of_the_backoffs() {
    for k in 0..=32usize {
        let mut outcomes = vec![status(500); k];
        outcomes.push(status(200));
        let expected: u64 = (1..=k as u32).map(|i| 60u64.min(2u64.pow(i))).sum();
        assert_eq!(run(&outcomes), (Action::Deliver, expected, k as u32));
    }
    let mut too_many = vec![status(500); 33];
    too_many.push(status(200));
    let (action, _, retries) = run(&too_many);
    assert_eq!(action, Action::Fail(Failure::RetriesExhausted));
    assert_eq!(retries, 33);
}

#[test]
fn retry_after_two_seconds_then_the_second_response() {
    let outcomes = [
        Observed::Status { code: 429, retry_after: Some(String::from("2")) },
        status(200),
    ];
    assert_eq!(run(&outcomes), (Action::Deliver, 2, 1));
}

#[test]
fn terminal_outcomes_and_connection_resets() {
    assert_eq!(run(&[status(401)]).0, Action::Fail(Failure::Unauthorized));
    assert_eq!(run(&[status(400)]).0, Action::Fail(Failure::BadRequest));
    assert_eq!(run(&[status(404)]).0, Action::Fail(Failure::Status));
    assert_eq!(
        run(&[Observed::Transport(TransportFault::Other)]).0,
        Action::Fail(Failure::Network)
    );
    let mut resets = vec![Observed::Transport(TransportFault::ConnectionReset); 16];
    resets.push(status(200));
    assert_eq!(run(&resets).0, Action::Deliver);
    let resets = vec![Observed::Transport(TransportFault::ConnectionAborted); 17];
    assert_eq!(run(&resets).0, Action::Fail(Failure::RetriesExhausted));
    let mut limited = vec![status(429); 40];
    limited.push(status(200));
    let (action, slept, _) = run(&limited);
    assert_eq!(action, Action::Deliver);
    assert_eq!(slept, 2 + 4 + 8 + 16 + 32 + 35 * 60);
}

fn run_authed(events: &[AuthedEvent]) -> (AuthedAction, usize) {
    let mut state = AuthedRetry::new();
    let mut relogins = 0;
    for event in events {
        match state.step(*event) {
            AuthedAction::Relogin => relogins += 1,
            AuthedAction::Resend => {}
            done => return (done, relogins),
        }
    }
    panic!("the events ran out");
}

#[test]
fn one_refusal_is_repaired_and_two_are_not() {
    let refused = AuthedEvent::Executed(Executed::Failed(Failure::Unauthorized));
    let delivered = AuthedEvent::Executed(Executed::Delivered);
    assert_eq!(run_authed(&[delivered]), (AuthedAction::Deliver, 0));
    assert_eq!(
        run_authed(&[refused, AuthedEvent::LoggedIn(true), delivered]),
        (AuthedAction::Deliver, 1)
    );
    assert_eq!(
        run_authed(&[refused, AuthedEvent::LoggedIn(true), refused]),
        (AuthedAction::FailCredentialsNotSet, 1)
    );
    assert_eq!(
        run_authed(&[refused, AuthedEvent::LoggedIn(false)]),
        (AuthedAction::FailLogin, 1)
    );
    assert_eq!(
        run_authed(&[AuthedEvent::Executed(Executed::Failed(Failure::Status))]),
        (AuthedAction::FailExecute(Failure::Status), 0)
    );
    assert_eq!(run_authed(&[AuthedEvent::LoggedIn(true)]), (AuthedAction::FailLogin, 0));
}

#[test]
fn login_request_and_answers() {
    let bare = Config::new("agent", "id", "secret");
    assert_eq!(
        login_request(&bare).err(),
        Some(ExecuteError::AuthorizationRequired)
    );
    assert_eq!(bare.base_url(), "https://www.reddit.com");
    let only_name = Config::new("agent", "id", "secret").username("me");
    assert!(login_request(&only_name).is_err());
    let config = Config::new("agent", "id", "secret").username("me").password("pw");
    assert_eq!(config.base_url(), "https://oauth.reddit.com");
    let request = login_request(&config).unwrap();
    assert_eq!(
        request.endpoint.build(request.base_url),
        "https://www.reddit.com/api/v1/access_token/"
    );
    assert_eq!(
        serde_urlencoded::to_string(request.form.pairs()).unwrap(),
        "grant_type=password&username=me&password=pw"
    );
    assert_eq!(request.client_id, "id");
    assert_eq!(request.client_secret, "secret");

    let ok = Json::parse(r#"{"access_token":"abc","token_type":"bearer"}"#).unwrap();
    assert_eq!(decode_login_response(&ok), Ok(String::from("abc")));
    let refused = Json::parse(r#"{"error":"invalid_grant"}"#).unwrap();
    assert_eq!(
        decode_login_response(&refused),
        Err(ExecuteError::AuthError(String::from("invalid_grant")))
    );
    assert_eq!(
        RouxError::from_execute(decode_login_response(&refused).unwrap_err()).kind,
        RouxErrorKind::Auth(String::from("invalid_grant"))
    );
    let odd = Json::parse(r#"{"access_token":5}"#).unwrap();
    assert!(matches!(decode_login_response(&odd), Err(ExecuteError::ErrorOnly(_))));
    assert_eq!(bearer_header("abc"), "Bearer abc");
    assert_eq!(
        default_headers(&config),
        vec![(String::from("User-Agent"), String::from("agent"))]
    );
    let mut with_token = Config::new("agent", "id", "secret");
    with_token.access_token = Some(String::from("tok"));
    assert_eq!(
        default_headers(&with_token)[1],
        (String::from("Authorization"), String::from("Bearer tok"))
    );
}

#[test]
fn errors_of_the_executor_map_to_kinds() {
    assert_eq!(
        RouxError::from_execute(ExecuteError::AuthorizationRequired).kind,
        RouxErrorKind::CredentialsNotSet
    );
    assert_eq!(
        RouxError::from_execute(ExecuteError::ErrorOnly(String::from("io"))).kind,
        RouxErrorKind::Network(String::from("io"))
    );
    assert_eq!(
        RouxError::from_execute(ExecuteError::ResponseAndError(404, String::from("nf"))).kind,
        RouxErrorKind::FullNetwork(404, String::from("nf"))
    );
    assert_eq!(
        RouxError::from_execute(ExecuteError::BadRequest(String::from("{}"))).kind,
        RouxErrorKind::RedditError(RedditFailure::Body(String::from("{}")))
    );
    assert_eq!(
        ExecuteError::from_failure(Failure::Unauthorized, 401, String::new()),
        ExecuteError::AuthorizationRequired
    );
    assert_eq!(
        ExecuteError::from_failure(Failure::Status, 404, String::from("x")),
        ExecuteError::ResponseAndError(404, String::from("x"))
    );
    assert_eq!(
        ExecuteError::from_failure(Failure::RetriesExhausted, 500, String::from("x")),
        ExecuteError::ErrorOnly(String::from("x"))
    );
    assert_eq!(RouxError::credentials_not_set().kind, RouxErrorKind::CredentialsNotSet);
}

#[test]
fn numbers_in_headers() {
    assert_eq!(parse_u64("0"), Some(0));
    assert_eq!(parse_u64("+17"), Some(17));
    assert_eq!(parse_u64("18446744073709551615"), Some(u64::MAX));
    assert_eq!(parse_u64("18446744073709551616"), None);
    assert_eq!(parse_u64(""), None);
    assert_eq!(parse_u64("+"), None);
    assert_eq!(parse_u64("-1"), None);
    assert_eq!(parse_u64("1 "), None);
    assert_eq!(parse_milli("99.0"), Some(99_000));
    assert_eq!(parse_milli("99"), Some(99_000));
    assert_eq!(parse_milli("0.25"), Some(250));
    assert_eq!(parse_milli("1.2345"), Some(1_234));
    assert_eq!(parse_milli("7."), Some(7_000));
    assert_eq!(parse_milli(".5"), None);
    assert_eq!(parse_milli("1.2.3"), None);
    assert_eq!(parse_milli("1e3"), None);
    assert_eq!(parse_milli("18446744073709551615"), None);
    assert_eq!(parse_milli("-1"), None);
    assert_eq!(parse_signed_milli("99.0"), Some(99_000));
    assert_eq!(parse_signed_milli("+2"), Some(2_000));
    assert_eq!(parse_signed_milli("-1.5"), Some(-1_500));
    assert_eq!(parse_signed_milli("-0"), Some(0));
    assert_eq!(parse_signed_milli("-"), None);
    assert_eq!(parse_signed_milli("--1"), None);
    assert_eq!(parse_signed_milli(""), None);
    assert_eq!(parse_signed_milli("9223372036854775.807"), Some(i64::MAX));
    assert_eq!(parse_signed_milli("9223372036854775.808"), None);
    assert_eq!(parse_signed_milli("-9223372036854775.807"), Some(-i64::MAX));
    assert_eq!(
        RatelimitHeaders::parse(Some("-3.0"), Some("103"), Some("7")),
        Some(RatelimitHeaders { remaining_milli: -3_000, used: 103, reset_seconds: 7 })
    );
    assert_eq!(
        RatelimitHeaders::parse(Some("98.0"), Some("2"), Some("598")),
        Some(RatelimitHeaders { remaining_milli: 98_000, used: 2, reset_seconds: 598 })
    );
    assert_eq!(RatelimitHeaders::parse(None, Some("2"), Some("598")), None);
    assert_eq!(RatelimitHeaders::parse(Some("98.0"), Some("x"), Some("598")), None);
}

#[test]
fn ratelimit_update_formula() {
    let mut limit = Ratelimit::new(1_000);
    assert_eq!(limit.remaining_milli, 100_000);
    assert_eq!(limit.used, 0);
    assert_eq!(limit.next_request_at, 1_000);
    assert_eq!(limit.next_reset_at, 600_001_000);
    assert_eq!(limit.delay(500), 500);
    assert_eq!(limit.delay(1_000), 0);
    assert_eq!(limit.delay(2_000), 0);

    limit.update(2_000, None);
    assert_eq!(limit.remaining_milli, 99_000);
    assert_eq!(limit.used, 1);
    assert_eq!(limit.next_request_at, 1_000);

    let headers = RatelimitHeaders { remaining_milli: 99_000, used: 1, reset_seconds: 599 };
    assert_eq!(headers.delay_micros(), 5_000_000);
    limit.update(2_000, Some(headers));
    assert_eq!(limit.next_reset_at, 599_002_000);
    assert_eq!(limit.next_request_at, 5_002_000);

    let early = RatelimitHeaders { remaining_milli: 50_000, used: 50, reset_seconds: 100 };
    assert_eq!(early.delay_micros(), 0);
    let late = RatelimitHeaders { remaining_milli: 1_000, used: 1, reset_seconds: 600 };
    assert_eq!(late.delay_micros(), 10_000_000);
    limit.update(10_000_000, Some(RatelimitHeaders { remaining_milli: 1_000, used: 99, reset_seconds: 3 }));
    assert_eq!(limit.next_reset_at, 13_000_000);
    assert_eq!(limit.next_request_at, 10_000_000);
    limit.update(10_000_000, Some(RatelimitHeaders { remaining_milli: 1_000, used: 99, reset_seconds: 8 }));
    assert_eq!(limit.next_reset_at, 18_000_000);
    assert_eq!(limit.next_request_at, 12_000_000);

    limit.update(20_000_000, Some(RatelimitHeaders { remaining_milli: 0, used: 100, reset_seconds: 42 }));
    assert_eq!(limit.next_request_at, limit.next_reset_at);
    assert_eq!(limit.next_reset_at, 62_000_000);
    assert_eq!(limit.remaining_milli, 0);

    limit.update(30_000_000, Some(RatelimitHeaders { remaining_milli: -2_000, used: 102, reset_seconds: 5 }));
    assert_eq!(limit.next_request_at, limit.next_reset_at);
    assert_eq!(limit.next_reset_at, 35_000_000);
    assert_eq!(limit.remaining_milli, -2_000);
}

#[test]
fn ratelimit_next_request_never_moves_back() {
    let mut limit = Ratelimit::new(0);
    let mut now = 0u64;
    let mut remaining = 100_000i64;
    let mut used = 0u64;
    for step in 0..100u64 {
        now = now.max(limit.next_request_at) + 1_000 * (step % 7);
        now += limit.delay(now);
        let before = limit.next_request_at;
        remaining -= 1_000;
        used += 1;
        let reset = 600 - (now / 1_000_000).min(599);
        limit.update(now, Some(RatelimitHeaders { remaining_milli: remaining, used, reset_seconds: reset }));
        assert!(limit.next_request_at >= before);
        assert!(limit.next_request_at <= limit.next_reset_at);
    }
    assert_eq!(limit.next_request_at, limit.next_reset_at);
}
