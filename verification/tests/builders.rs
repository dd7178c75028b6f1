use roux::endpoint::{build_subreddit, EndpointBuilder};
use roux::form::FormBuilder;
use roux::options::{FeedOption, TimePeriod};
use roux::submit::SubmissionSubmitBuilder;

#[test]
fn test_url_encoded() {
    let form = FormBuilder::new()
        .with("text", "goeshere")
        .with("another-value", &format!("somemore stuff"));

    let encoded = serde_urlencoded::to_string(form.pairs()).unwrap();

    assert_eq!(
        encoded,
        r#"api_type=json&text=goeshere&another-value=somemore+stuff"#
    );
}

#[test]
fn form_with_bool_and_add() {
    let mut form = FormBuilder::new().with_bool("spam", true).with_bool("sticky", false);
    form.add("id", "t3_abc");
    let pairs: Vec<(&str, &str)> = form
        .pairs()
        .iter()
        .map(|(k, v)| (k.as_str(), v.as_str()))
        .collect();
    assert_eq!(
        pairs,
        vec![("api_type", "json"), ("spam", "true"), ("sticky", "false"), ("id", "t3_abc")]
    );
    assert!(FormBuilder::empty().pairs().is_empty());
    let listed = FormBuilder::from_pairs(&vec![("name", "u"), ("type", "moderator")]);
    assert_eq!(
        serde_urlencoded::to_string(listed.pairs()).unwrap(),
        "api_type=json&name=u&type=moderator"
    );
}

#[test]
fn test_self_text_serialize() {
    let builder =
        SubmissionSubmitBuilder::text("Hello world", "**Some body** here").with_send_replies(false);

    let value = builder.to_json().to_text();
    assert_eq!(
        value,
        r#"{"title":"Hello world","sendreplies":false,"kind":"self","text":"**Some body** here"}"#,
    );
}

#[test]
fn test_url_serialize() {
    let builder = SubmissionSubmitBuilder::link("Another test", "https://example.com", false)
        .with_send_replies(false)
        .with_nsfw(true);

    let value = builder.to_json().to_text();
    assert_eq!(
        value,
        r#"{"title":"Another test","sendreplies":false,"nsfw":true,"kind":"link","url":"https://example.com"}"#,
    );
}

#[test]
fn test_url_resubmit_serialize() {
    let builder = SubmissionSubmitBuilder::link("Another test", "https://example.com", true)
        .with_send_replies(false)
        .with_nsfw(true);

    let value = builder.to_json().to_text();
    assert_eq!(
        value,
        r#"{"title":"Another test","sendreplies":false,"nsfw":true,"resubmit":true,"kind":"link","url":"https://example.com"}"#,
    );
}

#[test]
fn rich_text_and_form_of_a_submission() {
    let builder = SubmissionSubmitBuilder::rich_text_json("T", "{\"document\":[]}")
        .with_spoiler(true)
        .with_flair("f1", "Flair");
    assert_eq!(
        builder.to_json().to_text(),
        r#"{"title":"T","sendreplies":true,"spoiler":true,"flair_id":"f1","flair_text":"Flair","kind":"self","richtext_json":"{\"document\":[]}"}"#
    );
    let form = builder.form("rust");
    assert_eq!(
        serde_urlencoded::to_string(form.pairs()).unwrap(),
        "sr=rust&title=T&sendreplies=true&spoiler=true&flair_id=f1&flair_text=Flair&kind=self&richtext_json=%7B%22document%22%3A%5B%5D%7D&api_type=json"
    );
}

#[test]
fn endpoint_build_forms() {
    assert_eq!(
        EndpointBuilder::new("").build("https://www.reddit.com"),
        "https://www.reddit.com/.json"
    );
    assert_eq!(
        EndpointBuilder::new("api/v1/me").build("https://oauth.reddit.com"),
        "https://oauth.reddit.com/api/v1/me/.json"
    );
    assert_eq!(
        EndpointBuilder::new("/api/live/x/update").build("https://oauth.reddit.com"),
        "https://oauth.reddit.com/api/live/x/update/.json"
    );
    let saved = EndpointBuilder::new("user/me/saved")
        .query("limit", "5")
        .query("after", "t3_abc");
    assert_eq!(
        saved.build("https://oauth.reddit.com"),
        "https://oauth.reddit.com/user/me/saved/.json?limit=5&after=t3_abc&"
    );
    let mut token = EndpointBuilder::new("api/v1/access_token");
    token.with_dot_json = false;
    assert_eq!(
        token.build("https://www.reddit.com"),
        "https://www.reddit.com/api/v1/access_token/"
    );
}

#[test]
fn endpoint_join_and_absolute_urls() {
    let joined = build_subreddit("rust")
        .query("a", "1")
        .join(EndpointBuilder::new("comments/abc").query("b", "2"));
    assert_eq!(joined.path, "r/rust/comments/abc");
    assert_eq!(
        joined.build("https://www.reddit.com"),
        "https://www.reddit.com/r/rust/comments/abc/.json?a=1&b=2&"
    );
    let revoke = EndpointBuilder::new("https://www.reddit.com/api/v1/revoke_token");
    assert_eq!(
        revoke.url("https://oauth.reddit.com"),
        "https://www.reddit.com/api/v1/revoke_token/.json"
    );
    assert_eq!(
        EndpointBuilder::new("htt").url("https://oauth.reddit.com"),
        "https://oauth.reddit.com/htt/.json"
    );
    let mut with = EndpointBuilder::new("x");
    with.with_query("k", "v");
    assert_eq!(with.url("b"), "b/x/.json?k=v&");
}

#[test]
fn feed_options_become_query_pairs() {
    let mut endpoint = EndpointBuilder::new("r/rust/top");
    FeedOption::new()
        .after("t3_abc")
        .count(25)
        .limit(5)
        .period(TimePeriod::ThisMonth)
        .build_url(&mut endpoint);
    assert_eq!(
        endpoint.build(""),
        "/r/rust/top/.json?after=t3_abc&count=25&limit=5&t=month&"
    );
    let mut other = EndpointBuilder::new("x");
    FeedOption::new().before("t3_z").limit(0).build_url(&mut other);
    assert_eq!(other.build(""), "/x/.json?before=t3_z&limit=0&");
    assert_eq!(TimePeriod::Now.get_string_for_period(), "now");
    assert_eq!(TimePeriod::Today.get_string_for_period(), "day");
    assert_eq!(TimePeriod::ThisWeek.get_string_for_period(), "week");
    assert_eq!(TimePeriod::ThisYear.get_string_for_period(), "year");
    assert_eq!(TimePeriod::AllTime.get_string_for_period(), "all");
}
