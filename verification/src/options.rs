//! Options for feeds: where a page starts, how long it is, and which span
//! of time it covers.

use crate::endpoint::EndpointBuilder;
use crate::text::{decimal_digits, decimal_of, string_of};
use vstd::prelude::*;

verus! {

/// The span of time that a feed covers.
#[derive(Debug, Clone, Copy, PartialEq, Eq, Structural)]
pub enum TimePeriod {
    /// The last hour.
    Now,
    /// The last day.
    Today,
    /// The last week.
    ThisWeek,
    /// The last month.
    ThisMonth,
    /// The last year.
    ThisYear,
    /// All time.
    AllTime,
}

impl TimePeriod {
    /// The value of the query parameter `t` for a period.
    pub open spec fn query_value(self) -> Seq<char> {
        match self {
            TimePeriod::Now => "now"@,
            TimePeriod::Today => "day"@,
            TimePeriod::ThisWeek => "week"@,
            TimePeriod::ThisMonth => "month"@,
            TimePeriod::ThisYear => "year"@,
            TimePeriod::AllTime => "all"@,
        }
    }

    /// The value of the query parameter `t`.
    pub fn get_string_for_period(self) -> (r: &'static str)
        ensures
            r@ == self.query_value(),
    {
        match self {
            TimePeriod::Now => "now",
            TimePeriod::Today => "day",
            TimePeriod::ThisWeek => "week",
            TimePeriod::ThisMonth => "month",
            TimePeriod::ThisYear => "year",
            TimePeriod::AllTime => "all",
        }
    }
}

/// The options of a feed.
#[derive(Debug, PartialEq, Eq)]
pub struct FeedOption {
    /// The fullname after which the page starts.
    pub after: Option<String>,
    /// The fullname before which the page ends.
    pub before: Option<String>,
    /// The number of items already seen.
    pub count: Option<u32>,
    /// The largest number of items in the page.
    pub limit: Option<u32>,
    /// The span of time.
    pub period: Option<TimePeriod>,
}

/// A query pair with a text, where there is a text.
pub open spec fn text_pair(key: Seq<char>, value: Option<String>) -> Seq<(Seq<char>, Seq<char>)> {
    match value {
        Some(value) => seq![(key, value@)],
        None => Seq::empty(),
    }
}

/// A query pair with a number in decimal, where there is a number.
pub open spec fn number_pair(key: Seq<char>, value: Option<u32>) -> Seq<(Seq<char>, Seq<char>)> {
    match value {
        Some(value) => seq![(key, decimal_digits(value as nat))],
        None => Seq::empty(),
    }
}

/// The query pair for a period, where there is one.
pub open spec fn period_pair(period: Option<TimePeriod>) -> Seq<(Seq<char>, Seq<char>)> {
    match period {
        Some(period) => seq![("t"@, period.query_value())],
        None => Seq::empty(),
    }
}

/// Adds a query pair with a number in decimal, where there is a number.
pub fn add_number(endpoint: &mut EndpointBuilder, key: &str, value: Option<u32>)
    ensures
        final(endpoint).path@ == old(endpoint).path@,
        final(endpoint).with_dot_json == old(endpoint).with_dot_json,
        final(endpoint).query_view() == old(endpoint).query_view() + number_pair(key@, value),
{
    match value {
        Some(value) => {
            let digits = decimal_of(value as u64);
            let text = string_of(&digits);
            endpoint.with_query(key, text.as_str());
        },
        None => {},
    }
    proof {
        assert(endpoint.query_view() =~= old(endpoint).query_view() + number_pair(key@, value));
    }
}

/// Adds a query pair with a text, where there is a text.
pub fn add_text(endpoint: &mut EndpointBuilder, key: &str, value: &Option<String>)
    ensures
        final(endpoint).path@ == old(endpoint).path@,
        final(endpoint).with_dot_json == old(endpoint).with_dot_json,
        final(endpoint).query_view() == old(endpoint).query_view() + text_pair(key@, *value),
{
    match value {
        Some(value) => {
            endpoint.with_query(key, value.as_str());
        },
        None => {},
    }
    proof {
        assert(endpoint.query_view() =~= old(endpoint).query_view() + text_pair(key@, *value));
    }
}

impl FeedOption {
    /// The query pairs that stand for the options: `after`, `before`,
    /// `count`, `limit` and `t`, each where it is set, in this order.
    pub open spec fn query_pairs(&self) -> Seq<(Seq<char>, Seq<char>)> {
        text_pair("after"@, self.after) + text_pair("before"@, self.before) + number_pair(
            "count"@,
            self.count,
        ) + number_pair("limit"@, self.limit) + period_pair(self.period)
    }

    /// Options that set nothing.
    pub fn new() -> (r: Self)
        ensures
            r.after is None && r.before is None && r.count is None && r.limit is None
                && r.period is None,
    {
        FeedOption { after: None, before: None, count: None, limit: None, period: None }
    }

    /// The options with a page that starts after this fullname.
    pub fn after(self, after: &str) -> (r: Self)
        ensures
            r.after matches Some(a) && a@ == after@,
            r.before == self.before && r.count == self.count && r.limit == self.limit && r.period
                == self.period,
    {
        let mut options = self;
        options.after = Some(after.to_owned());
        options
    }

    /// The options with a page that ends before this fullname.
    pub fn before(self, before: &str) -> (r: Self)
        ensures
            r.before matches Some(b) && b@ == before@,
            r.after == self.after && r.count == self.count && r.limit == self.limit && r.period
                == self.period,
    {
        let mut options = self;
        options.before = Some(before.to_owned());
        options
    }

    /// The options with this count of items already seen.
    pub fn count(self, count: u32) -> (r: Self)
        ensures
            r == (FeedOption { count: Some(count), ..self }),
    {
        let mut options = self;
        options.count = Some(count);
        options
    }

    /// The options with this limit on the length of the page.
    pub fn limit(self, limit: u32) -> (r: Self)
        ensures
            r == (FeedOption { limit: Some(limit), ..self }),
    {
        let mut options = self;
        options.limit = Some(limit);
        options
    }

    /// The options with this span of time.
    pub fn period(self, period: TimePeriod) -> (r: Self)
        ensures
            r == (FeedOption { period: Some(period), ..self }),
    {
        let mut options = self;
        options.period = Some(period);
        options
    }

    /// Adds the query pairs of the options to an endpoint.
    pub fn build_url(&self, endpoint: &mut EndpointBuilder)
        ensures
            final(endpoint).path@ == old(endpoint).path@,
            final(endpoint).with_dot_json == old(endpoint).with_dot_json,
            final(endpoint).query_view() == old(endpoint).query_view() + self.query_pairs(),
    {
        add_text(endpoint, "after", &self.after);
        add_text(endpoint, "before", &self.before);
        add_number(endpoint, "count", self.count);
        add_number(endpoint, "limit", self.limit);
        match self.period {
            Some(period) => {
                endpoint.with_query("t", period.get_string_for_period());
            },
            None => {},
        }
        proof {
            assert(endpoint.query_view() =~= old(endpoint).query_view() + self.query_pairs());
        }
    }
}

} // verus!
