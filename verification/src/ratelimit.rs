//! The ratelimiter: a window of 600 seconds, kept in step with the
//! `X-Ratelimit-*` headers of the responses.
//!
//! Instants are microseconds on a clock of the caller's choosing. The
//! requests that remain are counted in thousandths, as the header gives
//! them as a decimal number, with or without a sign; a count at or below
//! zero means that the window is used up.

use crate::text::{chars_of, decimal_value, digit_value, digits_u64, digits_u64_spec, find_char,
    first_index, is_digit, lemma_first_index_from, parse_u64, parse_u64_spec};
use vstd::prelude::*;
use vstd::string::StrSliceExecFns;

verus! {

/// The length of the window, in seconds.
pub const WINDOW_SECONDS: u64 = 600;

/// The length of the window, in microseconds.
pub const WINDOW_MICROS: u64 = 600_000_000;

/// The longest wait that the spacing of requests asks for, in microseconds.
pub const MAX_DELAY_MICROS: u64 = 10_000_000;

/// The requests that a fresh window is taken to allow, in thousandths.
pub const INITIAL_REMAINING_MILLI: i64 = 100_000;

/// What the three headers of a response say.
#[derive(Debug, Clone, Copy, PartialEq, Eq, Structural)]
pub struct RatelimitHeaders {
    /// `X-Ratelimit-Remaining`, in thousandths of a request. It may be
    /// negative.
    pub remaining_milli: i64,
    /// `X-Ratelimit-Used`.
    pub used: u64,
    /// `X-Ratelimit-Reset`: the seconds until the window resets.
    pub reset_seconds: u64,
}

/// The state of the ratelimiter.
#[derive(Debug, Clone, Copy, PartialEq, Eq, Structural)]
pub struct Ratelimit {
    /// The requests that remain in the window, in thousandths.
    pub remaining_milli: i64,
    /// The requests made in the window.
    pub used: u64,
    /// The earliest instant at which the next request may be sent.
    pub next_request_at: u64,
    /// The instant at which the window resets.
    pub next_reset_at: u64,
}

/// The sum of an instant and a span, held at the largest instant.
pub open spec fn instant_after(at: u64, span: int) -> u64 {
    if at + span > u64::MAX {
        u64::MAX
    } else {
        (at + span) as u64
    }
}

/// The digit at a position of a fraction, zero past its end.
pub open spec fn fraction_digit(fraction: Seq<char>, i: int) -> nat {
    if i < fraction.len() {
        digit_value(fraction[i])
    } else {
        0
    }
}

/// The thousandths that the digits after a decimal point stand for; what
/// follows the third digit is cut off.
pub open spec fn fraction_milli(fraction: Seq<char>) -> nat {
    fraction_digit(fraction, 0) * 100 + fraction_digit(fraction, 1) * 10 + fraction_digit(
        fraction,
        2,
    )
}

/// What a decimal number says in thousandths: digits, and optionally a
/// point followed by digits. `None` for any other text, and where the
/// value does not fit.
pub open spec fn parse_milli_spec(s: Seq<char>) -> Option<u64> {
    let whole = s.subrange(0, first_index(s, '.'));
    let fraction = fraction_of(s);
    if digits_u64_spec(whole) is Some && all_digits(fraction) && decimal_value(whole) * 1000
        + fraction_milli(fraction) <= u64::MAX {
        Some((decimal_value(whole) * 1000 + fraction_milli(fraction)) as u64)
    } else {
        None
    }
}

/// What follows the first point of a text, and nothing where it has none.
pub open spec fn fraction_of(s: Seq<char>) -> Seq<char> {
    if first_index(s, '.') < s.len() {
        s.subrange(first_index(s, '.') + 1, s.len() as int)
    } else {
        Seq::empty()
    }
}

/// Whether every character is a decimal digit.
pub open spec fn all_digits(s: Seq<char>) -> bool {
    forall|i: int| 0 <= i < s.len() ==> is_digit(#[trigger] s[i])
}

/// Reads a decimal number in thousandths.
pub fn parse_milli(text: &str) -> (r: Option<u64>)
    ensures
        r == parse_milli_spec(text@),
{
    let chars = chars_of(text);
    let dot = find_char(&chars, '.', 0);
    let ghost fraction = fraction_of(text@);
    let whole = match digits_u64(&chars, 0, dot) {
        Some(whole) => whole,
        None => {
            return None;
        },
    };
    let start: usize = if dot < chars.len() {
        dot + 1
    } else {
        dot
    };
    let mut milli: u64 = 0;
    let mut i: usize = start;
    while i < chars.len()
        invariant
            start <= i <= chars.len(),
            chars@ == text@,
            dot == first_index(chars@, '.'),
            dot <= chars.len(),
            start == if dot < chars.len() {
                dot + 1
            } else {
                dot as int
            },
            fraction == fraction_of(text@),
            fraction =~= chars@.subrange(start as int, chars@.len() as int),
            forall|k: int| 0 <= k < i - start ==> is_digit(#[trigger] fraction[k]),
            i - start == 0 ==> milli == 0,
            i - start == 1 ==> milli == fraction_digit(fraction, 0) * 100,
            i - start == 2 ==> milli == fraction_digit(fraction, 0) * 100 + fraction_digit(
                fraction,
                1,
            ) * 10,
            i - start >= 3 ==> milli == fraction_milli(fraction),
            milli <= 999,
        decreases chars.len() - i,
    {
        let c = chars[i];
        proof {
            assert(fraction[i - start] == c);
        }
        if c < '0' || c > '9' {
            proof {
                assert(!is_digit(fraction[i - start]));
                assert(!all_digits(fraction));
            }
            return None;
        }
        let d: u64 = (c as u32 - '0' as u32) as u64;
        if i - start == 0 {
            milli = d * 100;
        } else if i - start == 1 {
            milli = milli + d * 10;
        } else if i - start == 2 {
            milli = milli + d;
        }
        i = i + 1;
    }
    proof {
        assert(fraction.len() == chars.len() - start);
        assert(all_digits(fraction));
    }
    if whole > (u64::MAX - milli) / 1000 {
        return None;
    }
    Some(whole * 1000 + milli)
}

/// A decimal number without its sign: what follows a leading `+` or `-`.
pub open spec fn unsigned_part(s: Seq<char>) -> Seq<char> {
    if s.len() > 0 && (s[0] == '-' || s[0] == '+') {
        s.drop_first()
    } else {
        s
    }
}

/// What a decimal number with an optional sign says in thousandths. `None`
/// for any other text, and where the value does not fit.
pub open spec fn parse_signed_milli_spec(s: Seq<char>) -> Option<i64> {
    match parse_milli_spec(unsigned_part(s)) {
        Some(magnitude) => if magnitude > i64::MAX {
            None
        } else if s[0] == '-' {
            Some((-magnitude) as i64)
        } else {
            Some(magnitude as i64)
        },
        None => None,
    }
}

/// Reads a decimal number with an optional sign in thousandths.
pub fn parse_signed_milli(text: &str) -> (r: Option<i64>)
    ensures
        r == parse_signed_milli_spec(text@),
{
    let n = text.unicode_len();
    let signed = n > 0 && (text.get_char(0) == '-' || text.get_char(0) == '+');
    let negative = n > 0 && text.get_char(0) == '-';
    let rest = if signed {
        text.substring_char(1, n)
    } else {
        text
    };
    proof {
        if signed {
            assert(rest@ =~= text@.drop_first());
        }
    }
    match parse_milli(rest) {
        Some(magnitude) => {
            if magnitude > 9223372036854775807u64 {
                None
            } else if negative {
                Some(-(magnitude as i64))
            } else {
                Some(magnitude as i64)
            }
        },
        None => None,
    }
}

/// The text of an optional header.
pub open spec fn header_view(h: Option<&str>) -> Option<Seq<char>> {
    match h {
        Some(s) => Some(s@),
        None => None,
    }
}

/// What the three headers say, where all of them are there and each reads
/// as its number.
pub open spec fn headers_spec(
    remaining: Option<Seq<char>>,
    used: Option<Seq<char>>,
    reset: Option<Seq<char>>,
) -> Option<RatelimitHeaders> {
    if remaining is Some && used is Some && reset is Some && parse_signed_milli_spec(
        remaining->0,
    ) is Some && parse_u64_spec(used->0) is Some && parse_u64_spec(reset->0) is Some {
        Some(
            RatelimitHeaders {
                remaining_milli: parse_signed_milli_spec(remaining->0)->0,
                used: parse_u64_spec(used->0)->0,
                reset_seconds: parse_u64_spec(reset->0)->0,
            },
        )
    } else {
        None
    }
}

impl RatelimitHeaders {
    /// Reads the headers `X-Ratelimit-Remaining`, `X-Ratelimit-Used` and
    /// `X-Ratelimit-Reset`.
    pub fn parse(remaining: Option<&str>, used: Option<&str>, reset: Option<&str>) -> (r: Option<
        RatelimitHeaders,
    >)
        ensures
            r == headers_spec(header_view(remaining), header_view(used), header_view(reset)),
    {
        let remaining_milli = match remaining {
            Some(text) => match parse_signed_milli(text) {
                Some(v) => v,
                None => {
                    return None;
                },
            },
            None => {
                return None;
            },
        };
        let used = match used {
            Some(text) => match parse_u64(text) {
                Some(v) => v,
                None => {
                    return None;
                },
            },
            None => {
                return None;
            },
        };
        let reset_seconds = match reset {
            Some(text) => match parse_u64(text) {
                Some(v) => v,
                None => {
                    return None;
                },
            },
            None => {
                return None;
            },
        };
        Some(RatelimitHeaders { remaining_milli, used, reset_seconds })
    }

    /// The wait that spaces the remaining requests evenly over the rest of
    /// the window, in microseconds. With `allowed = remaining + used`, the
    /// part of the window already used is `WINDOW * used / allowed`; the
    /// wait is the time until the reset less the part of the window that is
    /// left, held between 0 and 10 seconds.
    pub open spec fn spacing_delay(self) -> int
        recommends
            self.remaining_milli > 0,
    {
        let allowed_milli = self.remaining_milli + 1000 * self.used;
        let used_window = (WINDOW_MICROS * 1000 * self.used) / allowed_milli;
        let extra = self.reset_seconds * 1_000_000 - (WINDOW_MICROS - used_window);
        if extra < 0 {
            0
        } else if extra > MAX_DELAY_MICROS {
            MAX_DELAY_MICROS as int
        } else {
            extra
        }
    }

    /// Computes the spacing wait, in microseconds.
    pub fn delay_micros(&self) -> (r: u64)
        requires
            self.remaining_milli > 0,
        ensures
            r == self.spacing_delay(),
            r <= MAX_DELAY_MICROS,
    {
        let allowed_milli: u128 = self.remaining_milli as u128 + 1000u128 * (self.used as u128);
        let used_window: u128 = (600_000_000_000u128 * (self.used as u128)) / allowed_milli;
        let until_reset: u128 = (self.reset_seconds as u128) * 1_000_000u128;
        proof {
            assert(WINDOW_MICROS * 1000 * self.used == 600_000_000_000 * self.used);
            assert(600_000_000_000 * self.used <= 600_000_000 * allowed_milli);
            vstd::arithmetic::div_mod::lemma_div_is_ordered(
                600_000_000_000 * self.used,
                600_000_000 * allowed_milli as int,
                allowed_milli as int,
            );
            vstd::arithmetic::div_mod::lemma_div_multiples_vanish(
                600_000_000,
                allowed_milli as int,
            );
            assert(used_window <= 600_000_000);
        }
        let left: u128 = 600_000_000u128 - used_window;
        if until_reset <= left {
            0
        } else if until_reset - left > 10_000_000u128 {
            10_000_000
        } else {
            (until_reset - left) as u64
        }
    }
}

impl Ratelimit {
    /// The state at the start of a window that begins now: 100 requests
    /// remain, none is used, the next request may go out at once, and the
    /// window resets after its length.
    pub fn new(now: u64) -> (r: Self)
        ensures
            r.remaining_milli == INITIAL_REMAINING_MILLI,
            r.used == 0,
            r.next_request_at == now,
            r.next_reset_at == instant_after(now, WINDOW_MICROS as int),
    {
        Ratelimit {
            remaining_milli: 100_000,
            used: 0,
            next_request_at: now,
            next_reset_at: add_span(now, 600_000_000),
        }
    }

    /// The microseconds to wait before the next request: the time until
    /// `next_request_at`, and nothing where that instant has passed.
    pub fn delay(&self, now: u64) -> (wait: u64)
        ensures
            wait == if self.next_request_at > now {
                self.next_request_at - now
            } else {
                0
            },
            now + wait >= self.next_request_at,
    {
        if self.next_request_at > now {
            self.next_request_at - now
        } else {
            0
        }
    }

    /// The state after a response without the headers: one request less
    /// remains and one more is used; the instants stay.
    pub open spec fn after_unknown(self) -> Ratelimit {
        Ratelimit {
            remaining_milli: if self.remaining_milli - 1000 < i64::MIN {
                i64::MIN
            } else {
                (self.remaining_milli - 1000) as i64
            },
            used: if self.used < u64::MAX {
                (self.used + 1) as u64
            } else {
                self.used
            },
            next_request_at: self.next_request_at,
            next_reset_at: self.next_reset_at,
        }
    }

    /// The state after a response with the headers, received at `now`.
    /// The window resets after the seconds that the headers give. Where no
    /// request remains the next one waits for the reset; otherwise it
    /// waits for the spacing delay, and never past the reset.
    pub open spec fn after_headers(now: u64, headers: RatelimitHeaders) -> Ratelimit {
        let next_reset_at = instant_after(now, headers.reset_seconds * 1_000_000);
        let paced = instant_after(now, headers.spacing_delay());
        Ratelimit {
            remaining_milli: headers.remaining_milli,
            used: headers.used,
            next_request_at: if headers.remaining_milli <= 0 {
                next_reset_at
            } else if paced < next_reset_at {
                paced
            } else {
                next_reset_at
            },
            next_reset_at,
        }
    }

    /// The state after a response received at `now`.
    pub open spec fn updated(self, now: u64, headers: Option<RatelimitHeaders>) -> Ratelimit {
        match headers {
            Some(headers) => Self::after_headers(now, headers),
            None => self.after_unknown(),
        }
    }

    /// Takes in the headers of a response received at `now`; `None` stands
    /// for a response without `X-Ratelimit-Remaining`.
    pub fn update(&mut self, now: u64, headers: Option<RatelimitHeaders>)
        ensures
            *final(self) == old(self).updated(now, headers),
            headers matches Some(h) && h.remaining_milli <= 0 ==> final(self).next_request_at
                == final(self).next_reset_at,
            final(self).next_request_at <= final(self).next_reset_at || headers is None,
            old(self).next_request_at <= now ==> final(self).next_request_at >= old(
                self,
            ).next_request_at,
    {
        match headers {
            None => {
                if self.remaining_milli >= i64::MIN + 1000 {
                    self.remaining_milli = self.remaining_milli - 1000;
                } else {
                    self.remaining_milli = i64::MIN;
                }
                if self.used < u64::MAX {
                    self.used = self.used + 1;
                }
            },
            Some(h) => {
                let reset_span: u128 = (h.reset_seconds as u128) * 1_000_000u128;
                let next_reset_at = add_span(now, reset_span);
                self.remaining_milli = h.remaining_milli;
                self.used = h.used;
                self.next_reset_at = next_reset_at;
                if h.remaining_milli <= 0 {
                    self.next_request_at = next_reset_at;
                } else {
                    let paced = add_span(now, h.delay_micros() as u128);
                    self.next_request_at = if paced < next_reset_at {
                        paced
                    } else {
                        next_reset_at
                    };
                }
            },
        }
    }
}

fn add_span(at: u64, span: u128) -> (r: u64)
    ensures
        r == instant_after(at, span as int),
        r >= at,
{
    if span > (u64::MAX - at) as u128 {
        u64::MAX
    } else {
        at + span as u64
    }
}

/// A request that waited for its turn never moves the next turn back: where
/// the response comes in no earlier than the instant the request was
/// allowed at, the next request is allowed no earlier than this one was.
pub proof fn lemma_update_monotone(state: Ratelimit, now: u64, headers: Option<RatelimitHeaders>)
    requires
        state.next_request_at <= now,
    ensures
        state.updated(now, headers).next_request_at >= state.next_request_at,
{
}

/// Where the headers say that no request remains, or fewer than none, the
/// next request waits for the reset.
pub proof fn lemma_exhausted_waits_for_reset(state: Ratelimit, now: u64, headers: RatelimitHeaders)
    requires
        headers.remaining_milli <= 0,
    ensures
        state.updated(now, Some(headers)).next_request_at == state.updated(
            now,
            Some(headers),
        ).next_reset_at,
{
}

/// Over any run of responses, each received no earlier than the instant at
/// which its request was allowed, the instant of the next request never
/// moves back.
pub open spec fn run_updates(
    state: Ratelimit,
    responses: Seq<(u64, Option<RatelimitHeaders>)>,
) -> Ratelimit
    decreases responses.len(),
{
    if responses.len() == 0 {
        state
    } else {
        run_updates(state, responses.drop_last()).updated(
            responses.last().0,
            responses.last().1,
        )
    }
}

/// Whether each response of a run comes in no earlier than the instant at
/// which the state before it allows a request.
pub open spec fn waits_its_turn(
    state: Ratelimit,
    responses: Seq<(u64, Option<RatelimitHeaders>)>,
) -> bool {
    forall|i: int|
        0 <= i < responses.len() ==> run_updates(
            state,
            #[trigger] responses.subrange(0, i),
        ).next_request_at <= responses[i].0
}

/// Over a run of responses that each waited its turn, the instant of the
/// next request is monotonically non-decreasing.
pub proof fn lemma_run_monotone(
    state: Ratelimit,
    responses: Seq<(u64, Option<RatelimitHeaders>)>,
    i: int,
    j: int,
)
    requires
        waits_its_turn(state, responses),
        0 <= i <= j <= responses.len(),
    ensures
        run_updates(state, responses.subrange(0, i)).next_request_at <= run_updates(
            state,
            responses.subrange(0, j),
        ).next_request_at,
    decreases j - i,
{
    if i < j {
        lemma_run_monotone(state, responses, i, j - 1);
        let upto = responses.subrange(0, j);
        assert(upto.drop_last() =~= responses.subrange(0, j - 1));
        assert(upto.last() == responses[j - 1]);
        lemma_update_monotone(
            run_updates(state, responses.subrange(0, j - 1)),
            responses[j - 1].0,
            responses[j - 1].1,
        );
    }
}

} // verus!
