//! The retry policy of the request executor.
//!
//! One attempt of a request ends in an [`Observed`] outcome. The policy
//! classifies it and says what to do next: hand the response back, sleep
//! and send the request again, or give up with a failure. The caller sends
//! and sleeps; every decision is taken here.

use crate::text::parse_u64;
use vstd::prelude::*;

verus! {

/// The cause of a transport error, as far as the policy looks at it.
#[derive(Debug, Clone, Copy, PartialEq, Eq, Structural)]
pub enum TransportFault {
    /// The connection was aborted.
    ConnectionAborted,
    /// The connection was reset.
    ConnectionReset,
    /// Anything else.
    Other,
}

/// What came of one attempt.
#[derive(Debug, Clone, PartialEq, Eq)]
pub enum Observed {
    /// A response arrived, with this status code and, where the response
    /// had one, this `Retry-After` header.
    Status { code: u16, retry_after: Option<String> },
    /// No response arrived.
    Transport(TransportFault),
}

/// How the policy reads an outcome.
#[derive(Debug, Clone, Copy, PartialEq, Eq, Structural)]
pub enum Classification {
    /// The response is handed to the handler.
    Success,
    /// Retry after this many seconds, without a limit on the retries.
    RetryAfter(u64),
    /// Retry with exponential backoff, at most `max_retries` times where a
    /// limit is given.
    RetryExponential { max_retries: Option<u8> },
    /// The server wants authorization.
    Unauthorized,
    /// The server refused the request; the body says why.
    BadRequest,
    /// Another error status.
    TerminalStatus,
    /// A transport error that is not worth a retry.
    TerminalNetwork,
}

/// Why the executor gave up.
#[derive(Debug, Clone, Copy, PartialEq, Eq, Structural)]
pub enum Failure {
    /// The server wants authorization.
    Unauthorized,
    /// The server refused the request; the body says why.
    BadRequest,
    /// A response arrived with an error status.
    Status,
    /// No response arrived.
    Network,
    /// The retries allowed were used up; the last error is handed back.
    RetriesExhausted,
}

/// What the caller does next.
#[derive(Debug, Clone, Copy, PartialEq, Eq, Structural)]
pub enum Action {
    /// Hand the response to its handler.
    Deliver,
    /// Sleep this many seconds, then send the request again.
    SleepThenRetry { seconds: u64 },
    /// Give up.
    Fail(Failure),
}

/// Whether a status code is an error status: 400 to 599.
pub open spec fn is_error_status(code: u16) -> bool {
    400 <= code <= 599
}

/// How a status code with its `Retry-After` header is read.
pub open spec fn classify_status_spec(code: u16, retry_after: Option<Seq<char>>) -> Classification {
    if !is_error_status(code) {
        Classification::Success
    } else if code == 429 {
        match retry_after {
            Some(text) => match crate::text::parse_u64_spec(text) {
                Some(seconds) => Classification::RetryAfter(seconds),
                None => Classification::RetryExponential { max_retries: None },
            },
            None => Classification::RetryExponential { max_retries: None },
        }
    } else if code == 500 {
        Classification::RetryExponential { max_retries: Some(32u8) }
    } else if code == 401 {
        Classification::Unauthorized
    } else if code == 400 {
        Classification::BadRequest
    } else {
        Classification::TerminalStatus
    }
}

/// How a transport error is read.
pub open spec fn classify_fault_spec(fault: TransportFault) -> Classification {
    match fault {
        TransportFault::ConnectionAborted => Classification::RetryExponential {
            max_retries: Some(16u8),
        },
        TransportFault::ConnectionReset => Classification::RetryExponential {
            max_retries: Some(16u8),
        },
        TransportFault::Other => Classification::TerminalNetwork,
    }
}

/// The text of an optional header.
pub open spec fn header_text(h: Option<String>) -> Option<Seq<char>> {
    match h {
        Some(s) => Some(s@),
        None => None,
    }
}

/// How an outcome is read.
pub open spec fn classify_spec(observed: Observed) -> Classification {
    match observed {
        Observed::Status { code, retry_after } => classify_status_spec(
            code,
            header_text(retry_after),
        ),
        Observed::Transport(fault) => classify_fault_spec(fault),
    }
}

/// Reads a status code with its `Retry-After` header.
pub fn classify_status(code: u16, retry_after: Option<&str>) -> (c: Classification)
    ensures
        c == classify_status_spec(
            code,
            match retry_after {
                Some(s) => Some(s@),
                None => None,
            },
        ),
{
    if code < 400 || code > 599 {
        Classification::Success
    } else if code == 429 {
        match retry_after {
            Some(text) => match parse_u64(text) {
                Some(seconds) => Classification::RetryAfter(seconds),
                None => Classification::RetryExponential { max_retries: None },
            },
            None => Classification::RetryExponential { max_retries: None },
        }
    } else if code == 500 {
        Classification::RetryExponential { max_retries: Some(32) }
    } else if code == 401 {
        Classification::Unauthorized
    } else if code == 400 {
        Classification::BadRequest
    } else {
        Classification::TerminalStatus
    }
}

/// Reads a transport error.
pub fn classify_fault(fault: TransportFault) -> (c: Classification)
    ensures
        c == classify_fault_spec(fault),
{
    match fault {
        TransportFault::ConnectionAborted => Classification::RetryExponential {
            max_retries: Some(16),
        },
        TransportFault::ConnectionReset => Classification::RetryExponential {
            max_retries: Some(16),
        },
        TransportFault::Other => Classification::TerminalNetwork,
    }
}

/// Reads an outcome.
pub fn classify(observed: &Observed) -> (c: Classification)
    ensures
        c == classify_spec(*observed),
{
    match observed {
        Observed::Status { code, retry_after } => match retry_after {
            Some(text) => classify_status(*code, Some(text.as_str())),
            None => classify_status(*code, None),
        },
        Observed::Transport(fault) => classify_fault(*fault),
    }
}

/// Two to the power `n`.
pub open spec fn pow2(n: nat) -> nat
    decreases n,
{
    if n == 0 {
        1
    } else {
        2 * pow2((n - 1) as nat)
    }
}

/// The seconds to sleep before retry `n`, counted from one: the smaller of
/// 60 and two to the power `n`.
pub open spec fn backoff_seconds_spec(n: nat) -> nat {
    if pow2(n) < 60 {
        pow2(n)
    } else {
        60
    }
}

/// From the sixth retry on the power of two is over 60.
pub proof fn lemma_pow2_large(n: nat)
    requires
        n >= 6,
    ensures
        pow2(n) >= 64,
    decreases n,
{
    if n == 6 {
        assert(pow2(6) == 64) by {
            reveal_with_fuel(pow2, 7);
        }
    } else {
        lemma_pow2_large((n - 1) as nat);
    }
}

/// The seconds to sleep before retry `n`.
pub fn backoff_seconds(n: u32) -> (seconds: u64)
    ensures
        seconds == backoff_seconds_spec(n as nat),
        1 <= seconds <= 60,
{
    proof {
        reveal_with_fuel(pow2, 7);
        if n >= 6 {
            lemma_pow2_large(n as nat);
        }
    }
    if n == 0 {
        1
    } else if n == 1 {
        2
    } else if n == 2 {
        4
    } else if n == 3 {
        8
    } else if n == 4 {
        16
    } else if n == 5 {
        32
    } else {
        60
    }
}

/// The count of retries after one more, which stops at the largest number
/// that the counter holds.
pub open spec fn next_retries(retries: u32) -> u32 {
    if retries < u32::MAX {
        (retries + 1) as u32
    } else {
        retries
    }
}

/// What follows from a classified outcome when `retries` retries have been
/// made.
pub open spec fn decide(retries: u32, class: Classification) -> Action {
    match class {
        Classification::Success => Action::Deliver,
        Classification::RetryAfter(seconds) => Action::SleepThenRetry { seconds },
        Classification::RetryExponential { max_retries } => {
            let n = next_retries(retries);
            if max_retries is Some && n > max_retries->0 {
                Action::Fail(Failure::RetriesExhausted)
            } else {
                Action::SleepThenRetry { seconds: backoff_seconds_spec(n as nat) as u64 }
            }
        },
        Classification::Unauthorized => Action::Fail(Failure::Unauthorized),
        Classification::BadRequest => Action::Fail(Failure::BadRequest),
        Classification::TerminalStatus => Action::Fail(Failure::Status),
        Classification::TerminalNetwork => Action::Fail(Failure::Network),
    }
}

/// The count of retries after a classified outcome.
pub open spec fn retries_after(retries: u32, class: Classification) -> u32 {
    match class {
        Classification::RetryAfter(_) => next_retries(retries),
        Classification::RetryExponential { max_retries } => next_retries(retries),
        _ => retries,
    }
}

/// The state of one call of the executor: how many retries it has made.
#[derive(Debug, Clone, Copy, PartialEq, Eq, Structural)]
pub struct RetryState {
    pub retries: u32,
}

impl RetryState {
    /// The state before the first attempt.
    pub fn new() -> (r: Self)
        ensures
            r.retries == 0,
    {
        RetryState { retries: 0 }
    }

    /// Takes the classified outcome of an attempt and says what to do next.
    pub fn step(&mut self, class: Classification) -> (action: Action)
        ensures
            action == decide(old(self).retries, class),
            final(self).retries == retries_after(old(self).retries, class),
    {
        match class {
            Classification::Success => Action::Deliver,
            Classification::RetryAfter(seconds) => {
                self.bump();
                Action::SleepThenRetry { seconds }
            },
            Classification::RetryExponential { max_retries } => {
                self.bump();
                match max_retries {
                    Some(max) => {
                        if self.retries > max as u32 {
                            return Action::Fail(Failure::RetriesExhausted);
                        }
                    },
                    None => {},
                }
                Action::SleepThenRetry { seconds: backoff_seconds(self.retries) }
            },
            Classification::Unauthorized => Action::Fail(Failure::Unauthorized),
            Classification::BadRequest => Action::Fail(Failure::BadRequest),
            Classification::TerminalStatus => Action::Fail(Failure::Status),
            Classification::TerminalNetwork => Action::Fail(Failure::Network),
        }
    }

    fn bump(&mut self)
        ensures
            final(self).retries == next_retries(old(self).retries),
    {
        if self.retries < u32::MAX {
            self.retries = self.retries + 1;
        }
    }

    /// Takes the outcome of an attempt and says what to do next.
    pub fn observe(&mut self, observed: &Observed) -> (action: Action)
        ensures
            action == decide(old(self).retries, classify_spec(*observed)),
            final(self).retries == retries_after(old(self).retries, classify_spec(*observed)),
    {
        let class = classify(observed);
        self.step(class)
    }
}

/// How a call of the executor ends.
#[derive(Debug, Clone, Copy, PartialEq, Eq, Structural)]
pub enum Ending {
    /// The response was delivered.
    Delivered,
    /// The executor gave up.
    Failed(Failure),
    /// The outcomes ran out while the executor was still retrying.
    Unfinished,
}

/// A call of the executor as a whole, on the classified outcomes of its
/// attempts in order: how it ends, and how many seconds it sleeps in all.
/// Outcomes after the one that ends the call are not looked at.
pub open spec fn run(retries: u32, outcomes: Seq<Classification>) -> (Ending, nat)
    decreases outcomes.len(),
{
    if outcomes.len() == 0 {
        (Ending::Unfinished, 0)
    } else {
        match decide(retries, outcomes[0]) {
            Action::Deliver => (Ending::Delivered, 0),
            Action::Fail(failure) => (Ending::Failed(failure), 0),
            Action::SleepThenRetry { seconds } => {
                let rest = run(retries_after(retries, outcomes[0]), outcomes.drop_first());
                (rest.0, seconds as nat + rest.1)
            },
        }
    }
}

/// The sum of the backoff sleeps of the retries `from + 1` to `from + k`.
pub open spec fn backoff_total(from: nat, k: nat) -> nat
    decreases k,
{
    if k == 0 {
        0
    } else {
        backoff_seconds_spec(from + 1) + backoff_total(from + 1, (k - 1) as nat)
    }
}

/// `k` outcomes that each ask for a retry with the same limit, and then a
/// success.
pub open spec fn transient_then_success(k: nat, max_retries: Option<u8>) -> Seq<Classification> {
    Seq::new(k, |i: int| Classification::RetryExponential { max_retries }).push(
        Classification::Success,
    )
}

/// A backoff sleep is at most 60 seconds.
pub proof fn lemma_backoff_bounds(n: nat)
    ensures
        backoff_seconds_spec(n) <= 60,
{
}

/// After `k` transient failures within the limit and then a success, the
/// call delivers, and has slept the sum of the backoff sleeps of the
/// retries made.
pub proof fn lemma_transient_then_success(retries: u32, k: nat, max_retries: Option<u8>)
    requires
        max_retries matches Some(max) ==> retries + k <= max,
        retries + k < u32::MAX,
    ensures
        run(retries, transient_then_success(k, max_retries)) == (
            Ending::Delivered,
            backoff_total(retries as nat, k),
        ),
    decreases k,
{
    let outcomes = transient_then_success(k, max_retries);
    if k == 0 {
        assert(outcomes[0] == Classification::Success);
    } else {
        assert(outcomes[0] == Classification::RetryExponential { max_retries });
        assert(outcomes.drop_first() =~= transient_then_success((k - 1) as nat, max_retries));
        lemma_backoff_bounds((retries + 1) as nat);
        lemma_transient_then_success((retries + 1) as u32, (k - 1) as nat, max_retries);
    }
}

/// After at most 32 server errors with status 500 and then a response
/// that is no error, a call delivers exactly once, having slept the sum of
/// the smaller of 60 and two to the power `i` for `i` from one to `k`.
pub proof fn lemma_server_errors_then_success(k: nat)
    requires
        k <= 32,
    ensures
        run(
            0,
            Seq::new(k, |i: int| classify_status_spec(500, None)).push(
                classify_status_spec(200, None),
            ),
        ) == (Ending::Delivered, backoff_total(0, k)),
{
    assert(Seq::new(k, |i: int| classify_status_spec(500, None)).push(
        classify_status_spec(200, None),
    ) =~= transient_then_success(k, Some(32u8)));
    lemma_transient_then_success(0, k, Some(32u8));
}

/// A status 429 with a `Retry-After` header that reads as a number sleeps
/// that many seconds and retries; a second response that is no error is
/// then delivered.
pub proof fn lemma_retry_after_then_success(text: Seq<char>, seconds: u64)
    requires
        crate::text::parse_u64_spec(text) == Some(seconds),
    ensures
        run(0, seq![classify_status_spec(429, Some(text)), classify_status_spec(200, None)]) == (
            Ending::Delivered,
            seconds as nat,
        ),
{
    let outcomes = seq![classify_status_spec(429, Some(text)), classify_status_spec(200, None)];
    assert(outcomes[0] == Classification::RetryAfter(seconds));
    assert(outcomes.drop_first() =~= seq![Classification::Success]);
    assert(outcomes.drop_first()[0] == Classification::Success);
    assert(run(1, outcomes.drop_first()) == (Ending::Delivered, 0nat));
}

} // verus!
