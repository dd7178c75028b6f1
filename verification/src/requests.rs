//! The requests of the API: for each operation the method, the endpoint
//! and, for a POST, the form.

use crate::endpoint::{build_subreddit, EndpointBuilder};
use crate::form::FormBuilder;
use crate::fullname::ThingFullname;
use crate::options::{add_number, add_text, number_pair, text_pair, FeedOption};
use crate::submit::SubmissionSubmitBuilder;
use vstd::prelude::*;
use vstd::string::StringExecFns;

verus! {

/// The method of a request.
#[derive(Debug, Clone, Copy, PartialEq, Eq, Structural)]
pub enum Method {
    /// GET.
    Get,
    /// POST.
    Post,
}

/// A request of the API.
#[derive(Debug)]
pub struct ApiRequest {
    /// The method.
    pub method: Method,
    /// The endpoint.
    pub endpoint: EndpointBuilder,
    /// The form, for a POST.
    pub form: Option<FormBuilder>,
}

impl ApiRequest {
    /// Whether this is a GET of an endpoint with this path and query, with
    /// the `.json` suffix.
    pub open spec fn is_get(&self, path: Seq<char>, query: Seq<(Seq<char>, Seq<char>)>) -> bool {
        &&& self.method == Method::Get
        &&& self.endpoint.path@ == path
        &&& self.endpoint.query_view() == query
        &&& self.endpoint.with_dot_json
        &&& self.form is None
    }

    /// Whether this is a POST to an endpoint with this path, no query and
    /// the `.json` suffix, of a form that holds `api_type=json` and then
    /// these pairs.
    pub open spec fn is_post(&self, path: Seq<char>, pairs: Seq<(Seq<char>, Seq<char>)>) -> bool {
        &&& self.method == Method::Post
        &&& self.endpoint.path@ == path
        &&& self.endpoint.query_view() == Seq::<(Seq<char>, Seq<char>)>::empty()
        &&& self.endpoint.with_dot_json
        &&& self.form matches Some(form) && form@ == seq![("api_type"@, "json"@)] + pairs
    }
}

/// A GET of this endpoint.
pub fn get(endpoint: EndpointBuilder) -> (r: ApiRequest)
    ensures
        r.method == Method::Get,
        r.endpoint == endpoint,
        r.form is None,
{
    ApiRequest { method: Method::Get, endpoint, form: None }
}

/// A POST of this form to the endpoint with this path.
pub fn post(path: &str, form: FormBuilder) -> (r: ApiRequest)
    ensures
        r.method == Method::Post,
        r.endpoint.path@ == path@,
        r.endpoint.query_view() == Seq::<(Seq<char>, Seq<char>)>::empty(),
        r.endpoint.with_dot_json,
        r.form == Some(form),
{
    let endpoint = EndpointBuilder::new(path);
    proof {
        assert(endpoint.query_view() =~= Seq::<(Seq<char>, Seq<char>)>::empty());
    }
    ApiRequest { method: Method::Post, endpoint, form: Some(form) }
}

fn plain(path: &str) -> (r: ApiRequest)
    ensures
        r.is_get(path@, Seq::empty()),
{
    let endpoint = EndpointBuilder::new(path);
    proof {
        assert(endpoint.query_view() =~= Seq::<(Seq<char>, Seq<char>)>::empty());
    }
    get(endpoint)
}

fn join3(a: &str, b: &str, c: &str) -> (r: String)
    ensures
        r@ == a@ + b@ + c@,
{
    let mut s = String::from_str(a);
    s.append(b);
    s.append(c);
    s
}

/// Who the viewer is.
pub fn me() -> (r: ApiRequest)
    ensures
        r.is_get("api/v1/me"@, Seq::empty()),
{
    plain("api/v1/me")
}

/// Submits a post to a subreddit, named by its display name.
pub fn submit(subreddit_name: &str, submission: &SubmissionSubmitBuilder) -> (r: ApiRequest)
    ensures
        r.method == Method::Post,
        r.endpoint.path@ == "api/submit"@,
        r.endpoint.query_view() == Seq::<(Seq<char>, Seq<char>)>::empty(),
        r.endpoint.with_dot_json,
        r.form matches Some(form) && form@ == seq![("sr"@, subreddit_name@)]
            + submission.fields_model().map_values(
            |f: crate::submit::FieldModel| crate::submit::field_pair(f),
        ) + seq![("api_type"@, "json"@)],
{
    post("api/submit", submission.form(subreddit_name))
}

/// Fetches submissions by their fullnames. There is no request for no
/// fullname.
pub fn get_submissions(ids: &Vec<ThingFullname>) -> (r: Option<ApiRequest>)
    ensures
        r is Some <==> ids@.len() > 0,
        r matches Some(request) ==> request.is_get("by_id/"@ + joined_names(ids@), Seq::empty()),
{
    if ids.len() == 0 {
        return None;
    }
    let mut path = String::from_str("by_id/");
    path.append(ids[0].full());
    let mut i: usize = 1;
    proof {
        assert(ids@.subrange(0, 1).drop_last() =~= Seq::<ThingFullname>::empty());
    }
    while i < ids.len()
        invariant
            1 <= i <= ids.len(),
            path@ == "by_id/"@ + joined_names(ids@.subrange(0, i as int)),
        decreases ids.len() - i,
    {
        proof {
            assert(ids@.subrange(0, i + 1).drop_last() =~= ids@.subrange(0, i as int));
        }
        path.append(",");
        path.append(ids[i].full());
        i = i + 1;
    }
    proof {
        assert(ids@.subrange(0, ids@.len() as int) =~= ids@);
    }
    Some(plain(path.as_str()))
}

/// Fullnames, separated by commas.
pub open spec fn joined_names(ids: Seq<ThingFullname>) -> Seq<char>
    decreases ids.len(),
{
    if ids.len() == 0 {
        Seq::empty()
    } else if ids.len() == 1 {
        ids[0]@
    } else {
        joined_names(ids.drop_last()) + ","@ + ids.last()@
    }
}

/// Makes a user a friend of a subreddit, of the given type.
pub fn add_subreddit_friend(username: &str, typ: &str, sub: &str) -> (r: ApiRequest)
    ensures
        r.is_post(
            "r/"@ + sub@ + "/api/friend"@,
            seq![("name"@, username@), ("type"@, typ@)],
        ),
{
    let form = FormBuilder::new().with("name", username).with("type", typ);
    proof {
        assert(form@ =~= seq![("api_type"@, "json"@)] + seq![("name"@, username@), ("type"@, typ@)]);
    }
    post(join3("r/", sub, "/api/friend").as_str(), form)
}

/// Ends the friendship of a user and a subreddit, of the given type.
pub fn remove_subreddit_friend(username: &str, typ: &str, sub: &str) -> (r: ApiRequest)
    ensures
        r.is_post(
            "r/"@ + sub@ + "/api/unfriend"@,
            seq![("name"@, username@), ("type"@, typ@)],
        ),
{
    let form = FormBuilder::new().with("name", username).with("type", typ);
    proof {
        assert(form@ =~= seq![("api_type"@, "json"@)] + seq![("name"@, username@), ("type"@, typ@)]);
    }
    post(join3("r/", sub, "/api/unfriend").as_str(), form)
}

/// Sends a message to a user.
pub fn compose_message(username: &str, subject: &str, body: &str) -> (r: ApiRequest)
    ensures
        r.is_post(
            "api/compose"@,
            seq![("subject"@, subject@), ("text"@, body@), ("to"@, username@)],
        ),
{
    let form = FormBuilder::new().with("subject", subject).with("text", body).with("to", username);
    proof {
        assert(form@ =~= seq![("api_type"@, "json"@)] + seq![
            ("subject"@, subject@),
            ("text"@, body@),
            ("to"@, username@),
        ]);
    }
    post("api/compose", form)
}

/// The messages that the viewer received, read or not.
pub fn inbox() -> (r: ApiRequest)
    ensures
        r.is_get("message/inbox"@, Seq::empty()),
{
    plain("message/inbox")
}

/// The messages that the viewer has not read.
pub fn unread() -> (r: ApiRequest)
    ensures
        r.is_get("message/unread"@, Seq::empty()),
{
    plain("message/unread")
}

/// The query pairs of optional feed options.
pub open spec fn feed_pairs(options: Option<FeedOption>) -> Seq<(Seq<char>, Seq<char>)> {
    match options {
        Some(options) => options.query_pairs(),
        None => Seq::empty(),
    }
}

fn feed(path: &str, options: &Option<FeedOption>) -> (r: ApiRequest)
    ensures
        r.is_get(path@, feed_pairs(*options)),
{
    let mut endpoint = EndpointBuilder::new(path);
    proof {
        assert(endpoint.query_view() =~= Seq::<(Seq<char>, Seq<char>)>::empty());
    }
    match options {
        Some(options) => {
            options.build_url(&mut endpoint);
        },
        None => {},
    }
    proof {
        assert(endpoint.query_view() =~= feed_pairs(*options));
    }
    get(endpoint)
}

/// A listing of a user: `saved`, `upvoted`, `downvoted`, `comments`,
/// `overview` or `submitted`.
pub fn user_listing(username: &str, listing: &str, options: &Option<FeedOption>) -> (r: ApiRequest)
    ensures
        r.is_get("user/"@ + username@ + "/"@ + listing@, feed_pairs(*options)),
{
    let mut path = join3("user/", username, "/");
    path.append(listing);
    feed(path.as_str(), options)
}

/// The things that a user has saved.
pub fn saved(username: &str, options: &Option<FeedOption>) -> (r: ApiRequest)
    ensures
        r.is_get("user/"@ + username@ + "/"@ + "saved"@, feed_pairs(*options)),
{
    user_listing(username, "saved", options)
}

/// The things that a user has upvoted.
pub fn upvoted(username: &str, options: &Option<FeedOption>) -> (r: ApiRequest)
    ensures
        r.is_get("user/"@ + username@ + "/"@ + "upvoted"@, feed_pairs(*options)),
{
    user_listing(username, "upvoted", options)
}

/// The things that a user has downvoted.
pub fn downvoted(username: &str, options: &Option<FeedOption>) -> (r: ApiRequest)
    ensures
        r.is_get("user/"@ + username@ + "/"@ + "downvoted"@, feed_pairs(*options)),
{
    user_listing(username, "downvoted", options)
}

/// The comments that a user has made.
pub fn user_comments(username: &str, options: &Option<FeedOption>) -> (r: ApiRequest)
    ensures
        r.is_get("user/"@ + username@ + "/"@ + "comments"@, feed_pairs(*options)),
{
    user_listing(username, "comments", options)
}

/// The overview of a user.
pub fn user_overview(username: &str, options: &Option<FeedOption>) -> (r: ApiRequest)
    ensures
        r.is_get("user/"@ + username@ + "/"@ + "overview"@, feed_pairs(*options)),
{
    user_listing(username, "overview", options)
}

/// The submissions that a user has made.
pub fn user_submitted(username: &str, options: &Option<FeedOption>) -> (r: ApiRequest)
    ensures
        r.is_get("user/"@ + username@ + "/"@ + "submitted"@, feed_pairs(*options)),
{
    user_listing(username, "submitted", options)
}

/// The page about a user.
pub fn user_about(username: &str, options: &Option<FeedOption>) -> (r: ApiRequest)
    ensures
        r.is_get(username@ + "/about"@, feed_pairs(*options)),
{
    let path = join3("", username, "/about");
    proof {
        reveal_strlit("");
        assert(""@ + username@ =~= username@);
    }
    feed(path.as_str(), options)
}

fn post_id(path: &str, id: &ThingFullname) -> (r: ApiRequest)
    ensures
        r.is_post(path@, seq![("id"@, id@)]),
{
    let form = FormBuilder::new().with("id", id.full());
    proof {
        assert(form@ =~= seq![("api_type"@, "json"@)] + seq![("id"@, id@)]);
    }
    post(path, form)
}

/// Marks a message as read.
pub fn mark_read(id: &ThingFullname) -> (r: ApiRequest)
    ensures
        r.is_post("api/read_message"@, seq![("id"@, id@)]),
{
    post_id("api/read_message", id)
}

/// Marks a message as unread.
pub fn mark_unread(id: &ThingFullname) -> (r: ApiRequest)
    ensures
        r.is_post("api/unread_message"@, seq![("id"@, id@)]),
{
    post_id("api/unread_message", id)
}

/// Comments under a submission, or replies to a comment or a message.
pub fn comment(text: &str, parent: &ThingFullname) -> (r: ApiRequest)
    ensures
        r.is_post("api/comment"@, seq![("text"@, text@), ("parent"@, parent@)]),
{
    let form = FormBuilder::new().with("text", text).with("parent", parent.full());
    proof {
        assert(form@ =~= seq![("api_type"@, "json"@)] + seq![
            ("text"@, text@),
            ("parent"@, parent@),
        ]);
    }
    post("api/comment", form)
}

/// Replaces the text of a thing.
pub fn edit(text: &str, thing: &ThingFullname) -> (r: ApiRequest)
    ensures
        r.is_post("api/editusertext"@, seq![("text"@, text@), ("thing_id"@, thing@)]),
{
    let form = FormBuilder::new().with("text", text).with("thing_id", thing.full());
    proof {
        assert(form@ =~= seq![("api_type"@, "json"@)] + seq![
            ("text"@, text@),
            ("thing_id"@, thing@),
        ]);
    }
    post("api/editusertext", form)
}

/// The text of a truth value in a form.
pub open spec fn flag_text(flag: bool) -> Seq<char> {
    if flag {
        "true"@
    } else {
        "false"@
    }
}

/// Removes a thing, as spam or not. Moderators only.
pub fn remove(thing: &ThingFullname, spam: bool) -> (r: ApiRequest)
    ensures
        r.is_post("api/remove"@, seq![("spam"@, flag_text(spam)), ("id"@, thing@)]),
{
    let form = FormBuilder::new().with_bool("spam", spam).with("id", thing.full());
    proof {
        assert(form@ =~= seq![("api_type"@, "json"@)] + seq![
            ("spam"@, flag_text(spam)),
            ("id"@, thing@),
        ]);
    }
    post("api/remove", form)
}

/// Locks a submission or a comment.
pub fn lock(thing: &ThingFullname) -> (r: ApiRequest)
    ensures
        r.is_post("api/lock"@, seq![("id"@, thing@)]),
{
    post_id("api/lock", thing)
}

/// Unlocks a submission or a comment.
pub fn unlock(thing: &ThingFullname) -> (r: ApiRequest)
    ensures
        r.is_post("api/unlock"@, seq![("id"@, thing@)]),
{
    post_id("api/unlock", thing)
}

/// Reports a thing for a reason.
pub fn report(thing: &ThingFullname, reason: &str) -> (r: ApiRequest)
    ensures
        r.is_post("api/report"@, seq![("id"@, thing@), ("reason"@, reason@)]),
{
    let form = FormBuilder::new().with("id", thing.full()).with("reason", reason);
    proof {
        assert(form@ =~= seq![("api_type"@, "json"@)] + seq![
            ("id"@, thing@),
            ("reason"@, reason@),
        ]);
    }
    post("api/report", form)
}

/// The manner in which a thing is distinguished by its author.
#[derive(Debug, Clone, Copy, PartialEq, Eq, Structural)]
pub enum Distinguish {
    /// Not distinguished.
    NotDistinguished,
    /// As a moderator.
    Moderator,
    /// As an admin.
    Admin,
    /// In a special way.
    Special,
}

impl Distinguish {
    /// The value of the form field `how`.
    pub open spec fn how(self) -> Seq<char> {
        match self {
            Distinguish::NotDistinguished => "no"@,
            Distinguish::Moderator => "yes"@,
            Distinguish::Admin => "admin"@,
            Distinguish::Special => "special"@,
        }
    }

    /// The value of the form field `how`.
    pub fn how_text(self) -> (r: &'static str)
        ensures
            r@ == self.how(),
    {
        match self {
            Distinguish::NotDistinguished => "no",
            Distinguish::Moderator => "yes",
            Distinguish::Admin => "admin",
            Distinguish::Special => "special",
        }
    }
}

/// Distinguishes a thing, and makes it sticky or not.
pub fn distinguish(thing: &ThingFullname, kind: Distinguish, sticky: bool) -> (r: ApiRequest)
    ensures
        r.is_post(
            "api/distinguish"@,
            seq![("how"@, kind.how()), ("sticky"@, flag_text(sticky)), ("id"@, thing@)],
        ),
{
    let form = FormBuilder::new().with("how", kind.how_text()).with_bool("sticky", sticky).with(
        "id",
        thing.full(),
    );
    proof {
        assert(form@ =~= seq![("api_type"@, "json"@)] + seq![
            ("how"@, kind.how()),
            ("sticky"@, flag_text(sticky)),
            ("id"@, thing@),
        ]);
    }
    post("api/distinguish", form)
}

/// What a flair is applied to.
#[derive(Debug, PartialEq, Eq)]
pub enum SelectFlairTarget {
    /// A submission.
    Link(ThingFullname),
    /// A user, by name.
    User(String),
}

impl SelectFlairTarget {
    /// The pair of the form that names the target.
    pub open spec fn pair(&self) -> (Seq<char>, Seq<char>) {
        match self {
            SelectFlairTarget::Link(thing) => ("link"@, thing@),
            SelectFlairTarget::User(name) => ("name"@, name@),
        }
    }
}

/// Applies a flair to a submission or to a user.
pub fn select_flair(subreddit_name: &str, target: &SelectFlairTarget, flair_template_id: &str)
    -> (r: ApiRequest)
    ensures
        r.is_post(
            "r/"@ + subreddit_name@ + "/api/selectflair"@,
            seq![("flair_template_id"@, flair_template_id@), ("text"@, ""@), target.pair()],
        ),
{
    let mut form = FormBuilder::new().with("flair_template_id", flair_template_id).with("text", "");
    match target {
        SelectFlairTarget::Link(thing) => {
            form.add("link", thing.full());
        },
        SelectFlairTarget::User(name) => {
            form.add("name", name.as_str());
        },
    }
    proof {
        assert(form@ =~= seq![("api_type"@, "json"@)] + seq![
            ("flair_template_id"@, flair_template_id@),
            ("text"@, ""@),
            target.pair(),
        ]);
    }
    post(join3("r/", subreddit_name, "/api/selectflair").as_str(), form)
}

/// The slot that a sticky post takes.
#[derive(Debug, Clone, Copy, PartialEq, Eq, Structural)]
pub enum SubmissionStickySlot {
    /// The first.
    Top,
    /// The second.
    Bottom,
}

/// The pair that asks for the top slot: `num=1`, where a post is made
/// sticky in the top slot.
pub open spec fn slot_pair(state: bool, slot: SubmissionStickySlot) -> Seq<(Seq<char>, Seq<char>)> {
    if state && slot == SubmissionStickySlot::Top {
        seq![("num"@, "1"@)]
    } else {
        Seq::empty()
    }
}

/// Makes a submission sticky, or ends that.
pub fn sticky(post_id: &ThingFullname, state: bool, slot: SubmissionStickySlot) -> (r: ApiRequest)
    ensures
        r.is_post(
            "api/set_subreddit_sticky"@,
            seq![("id"@, post_id@), ("state"@, flag_text(state))] + slot_pair(state, slot),
        ),
{
    let mut form = FormBuilder::new().with("id", post_id.full()).with_bool("state", state);
    match (state, slot) {
        (true, SubmissionStickySlot::Top) => {
            form.add("num", "1");
        },
        _ => {},
    }
    proof {
        assert(form@ =~= seq![("api_type"@, "json"@)] + (seq![
            ("id"@, post_id@),
            ("state"@, flag_text(state)),
        ] + slot_pair(state, slot)));
    }
    post("api/set_subreddit_sticky", form)
}

/// What is known about a live thread.
pub fn about_live_thread(id: &str) -> (r: ApiRequest)
    ensures
        r.is_get("api/live/"@ + id@ + "/about"@, Seq::empty()),
{
    plain(join3("api/live/", id, "/about").as_str())
}

/// Makes a live thread.
pub fn create_live_thread(title: &str, description: &str, nsfw: bool, resources: &str) -> (r:
    ApiRequest)
    ensures
        r.is_post(
            "api/live/create"@,
            seq![
                ("title"@, title@),
                ("description"@, description@),
                ("resources"@, resources@),
                ("nsfw"@, flag_text(nsfw)),
            ],
        ),
{
    let form = FormBuilder::new().with("title", title).with("description", description).with(
        "resources",
        resources,
    ).with_bool("nsfw", nsfw);
    proof {
        assert(form@ =~= seq![("api_type"@, "json"@)] + seq![
            ("title"@, title@),
            ("description"@, description@),
            ("resources"@, resources@),
            ("nsfw"@, flag_text(nsfw)),
        ]);
    }
    post("api/live/create", form)
}

/// Invites a contributor with every permission to a live thread.
pub fn invite_live_thread_contributor(id: &str, username: &str) -> (r: ApiRequest)
    ensures
        r.is_post(
            "/api/live/"@ + id@ + "/invite_contributor"@,
            seq![
                ("type"@, "liveupdate_contributor_invite"@),
                ("name"@, username@),
                ("permissions"@, "+all"@),
            ],
        ),
{
    let form = FormBuilder::new().with("type", "liveupdate_contributor_invite").with(
        "name",
        username,
    ).with("permissions", "+all");
    proof {
        assert(form@ =~= seq![("api_type"@, "json"@)] + seq![
            ("type"@, "liveupdate_contributor_invite"@),
            ("name"@, username@),
            ("permissions"@, "+all"@),
        ]);
    }
    post(join3("/api/live/", id, "/invite_contributor").as_str(), form)
}

/// Posts an update to a live thread.
pub fn update_live_thread(id: &str, text: &str) -> (r: ApiRequest)
    ensures
        r.is_post("/api/live/"@ + id@ + "/update"@, seq![("body"@, text@)]),
{
    let form = FormBuilder::new().with("body", text);
    proof {
        assert(form@ =~= seq![("api_type"@, "json"@)] + seq![("body"@, text@)]);
    }
    post(join3("/api/live/", id, "/update").as_str(), form)
}

/// Closes a live thread.
pub fn close_live_thread(id: &str) -> (r: ApiRequest)
    ensures
        r.is_post("/api/live/"@ + id@ + "/close_thread"@, Seq::empty()),
{
    let form = FormBuilder::new();
    proof {
        assert(form@ =~= seq![("api_type"@, "json"@)] + Seq::<(Seq<char>, Seq<char>)>::empty());
    }
    post(join3("/api/live/", id, "/close_thread").as_str(), form)
}

/// Revokes an access token: a POST to the public host, whatever the base
/// URL of the client, with the token as the only pair of the form.
pub fn logout(access_token: &str) -> (r: ApiRequest)
    ensures
        r.method == Method::Post,
        r.endpoint.path@ == "https://www.reddit.com/api/v1/revoke_token"@,
        crate::endpoint::is_absolute(r.endpoint.path@),
        r.endpoint.query_view() == Seq::<(Seq<char>, Seq<char>)>::empty(),
        r.endpoint.with_dot_json,
        r.form matches Some(form) && form@ == seq![("access_token"@, access_token@)],
{
    let form = FormBuilder::empty().with("access_token", access_token);
    proof {
        reveal_strlit("https://www.reddit.com/api/v1/revoke_token");
        reveal_strlit("http");
        assert("https://www.reddit.com/api/v1/revoke_token"@.subrange(0, 4) =~= "http"@);
        assert(form@ =~= seq![("access_token"@, access_token@)]);
    }
    post("https://www.reddit.com/api/v1/revoke_token", form)
}

/// Searches the subreddits.
pub fn search_subreddits(name: &str, options: &Option<FeedOption>) -> (r: ApiRequest)
    ensures
        r.is_get("subreddits/search"@, seq![("q"@, name@)] + feed_pairs(*options)),
{
    let mut endpoint = EndpointBuilder::new("subreddits/search").query("q", name);
    match options {
        Some(options) => {
            options.build_url(&mut endpoint);
        },
        None => {},
    }
    proof {
        assert(endpoint.query_view() =~= seq![("q"@, name@)] + feed_pairs(*options));
    }
    get(endpoint)
}

/// A page of a subreddit without options, such as `about`.
pub fn subreddit_page(subreddit_name: &str, page: &str) -> (r: ApiRequest)
    ensures
        r.is_get("r/"@ + subreddit_name@ + "/"@ + page@, Seq::empty()),
{
    let endpoint = build_subreddit(subreddit_name).join(EndpointBuilder::new(page));
    proof {
        assert(endpoint.query_view() =~= Seq::<(Seq<char>, Seq<char>)>::empty());
    }
    get(endpoint)
}

/// A feed of a subreddit: `hot`, `rising`, `top` or `new`.
pub fn subreddit_feed(subreddit_name: &str, feed: &str, options: &Option<FeedOption>) -> (r:
    ApiRequest)
    ensures
        r.is_get("r/"@ + subreddit_name@ + "/"@ + feed@, feed_pairs(*options)),
{
    let mut endpoint = build_subreddit(subreddit_name).join(EndpointBuilder::new(feed));
    proof {
        assert(endpoint.query_view() =~= Seq::<(Seq<char>, Seq<char>)>::empty());
    }
    match options {
        Some(options) => {
            options.build_url(&mut endpoint);
        },
        None => {},
    }
    proof {
        assert(endpoint.query_view() =~= feed_pairs(*options));
    }
    get(endpoint)
}

/// The latest comments of a subreddit.
pub fn latest_comments(subreddit_name: &str, depth: Option<u32>, limit: Option<u32>) -> (r:
    ApiRequest)
    ensures
        r.is_get(
            "r/"@ + subreddit_name@ + "/"@ + "comments"@,
            number_pair("depth"@, depth) + number_pair("limit"@, limit),
        ),
{
    let mut endpoint = build_subreddit(subreddit_name).join(EndpointBuilder::new("comments"));
    add_number(&mut endpoint, "depth", depth);
    add_number(&mut endpoint, "limit", limit);
    proof {
        assert(endpoint.query_view() =~= number_pair("depth"@, depth) + number_pair(
            "limit"@,
            limit,
        ));
    }
    get(endpoint)
}

/// The comments under a submission.
pub fn article_comments(
    subreddit_name: &str,
    article: &ThingFullname,
    depth: Option<u32>,
    limit: Option<u32>,
) -> (r: ApiRequest)
    ensures
        r.is_get(
            "r/"@ + subreddit_name@ + "/"@ + ("comments/"@ + article@.subrange(
                3,
                article@.len() as int,
            )),
            number_pair("depth"@, depth) + number_pair("limit"@, limit),
        ),
{
    let mut page = String::from_str("comments/");
    page.append(article.id());
    let mut endpoint = build_subreddit(subreddit_name).join(EndpointBuilder::new(page.as_str()));
    add_number(&mut endpoint, "depth", depth);
    add_number(&mut endpoint, "limit", limit);
    proof {
        assert(endpoint.query_view() =~= number_pair("depth"@, depth) + number_pair(
            "limit"@,
            limit,
        ));
    }
    get(endpoint)
}

/// The query pair that asks for the second sticky post.
pub open spec fn sticky_pairs(slot: SubmissionStickySlot) -> Seq<(Seq<char>, Seq<char>)> {
    match slot {
        SubmissionStickySlot::Top => Seq::empty(),
        SubmissionStickySlot::Bottom => seq![("num"@, "2"@)],
    }
}

/// The sticky post of a subreddit in a slot.
pub fn subreddit_sticky(subreddit_name: &str, slot: SubmissionStickySlot) -> (r: ApiRequest)
    ensures
        r.is_get("r/"@ + subreddit_name@ + "/"@ + "about/sticky"@, sticky_pairs(slot)),
{
    let mut endpoint = build_subreddit(subreddit_name).join(EndpointBuilder::new("about/sticky"));
    match slot {
        SubmissionStickySlot::Top => {},
        SubmissionStickySlot::Bottom => {
            endpoint.with_query("num", "2");
        },
    }
    proof {
        assert(endpoint.query_view() =~= sticky_pairs(slot));
    }
    get(endpoint)
}

/// Whose flairs are listed.
#[derive(Debug, PartialEq, Eq)]
pub enum FlairSelector {
    /// The flairs for a submission that exists.
    Link(ThingFullname),
    /// The flairs for a new submission.
    NewLink,
    /// The flairs of a user.
    User(String),
}

impl FlairSelector {
    /// The pair of the form that says whose flairs are listed.
    pub open spec fn pair(&self) -> (Seq<char>, Seq<char>) {
        match self {
            FlairSelector::Link(thing) => ("link"@, thing@),
            FlairSelector::NewLink => ("is_newlink"@, "true"@),
            FlairSelector::User(name) => ("name"@, name@),
        }
    }
}

/// Lists the flairs that can be chosen in a subreddit.
pub fn list_flairs(subreddit_name: &str, selecting: &FlairSelector) -> (r: ApiRequest)
    ensures
        r.is_post("r/"@ + subreddit_name@ + "/api/flairselector"@, seq![selecting.pair()]),
{
    let mut form = FormBuilder::new();
    match selecting {
        FlairSelector::Link(thing) => {
            form.add("link", thing.full());
        },
        FlairSelector::NewLink => {
            form.add("is_newlink", "true");
        },
        FlairSelector::User(name) => {
            form.add("name", name.as_str());
        },
    }
    proof {
        assert(form@ =~= seq![("api_type"@, "json"@)] + seq![selecting.pair()]);
    }
    post(join3("r/", subreddit_name, "/api/flairselector").as_str(), form)
}

/// Accepts an invitation to moderate a subreddit.
pub fn accept_moderator_invite(subreddit_name: &str) -> (r: ApiRequest)
    ensures
        r.is_post("r/"@ + subreddit_name@ + "/api/accept_moderator_invite"@, Seq::empty()),
{
    let form = FormBuilder::new();
    proof {
        assert(form@ =~= seq![("api_type"@, "json"@)] + Seq::<(Seq<char>, Seq<char>)>::empty());
    }
    post(join3("r/", subreddit_name, "/api/accept_moderator_invite").as_str(), form)
}

/// The removal reasons of a subreddit.
pub fn list_removal_reasons(subreddit_name: &str) -> (r: ApiRequest)
    ensures
        r.is_get("api/v1/"@ + subreddit_name@ + "/removal_reasons"@, Seq::empty()),
{
    plain(join3("api/v1/", subreddit_name, "/removal_reasons").as_str())
}

/// The largest number of actions that one page of the moderation log
/// holds.
pub const MOD_LOG_LIMIT: u16 = 500;

/// The limit of a page of the moderation log: what was asked for, and at
/// most 500.
pub open spec fn mod_log_limit(limit: Option<u16>) -> Option<u32> {
    match limit {
        Some(limit) => if limit < MOD_LOG_LIMIT {
            Some(limit as u32)
        } else {
            Some(MOD_LOG_LIMIT as u32)
        },
        None => None,
    }
}

/// The query pair for a kind of action, where one is asked for.
pub open spec fn action_pair(action: Option<crate::api::things::ModActionType>) -> Seq<
    (Seq<char>, Seq<char>),
> {
    match action {
        Some(action) => seq![("type"@, action.wire_name())],
        None => Seq::empty(),
    }
}

/// The actions that the moderators of a subreddit took.
pub fn list_mod_log(
    subreddit_name: &str,
    after: &Option<String>,
    limit: Option<u16>,
    moderators: &Option<String>,
    action: Option<crate::api::things::ModActionType>,
) -> (r: ApiRequest)
    ensures
        r.is_get(
            "r/"@ + subreddit_name@ + "/"@ + "about/log"@,
            text_pair("after"@, *after) + number_pair("limit"@, mod_log_limit(limit)) + text_pair(
                "mod"@,
                *moderators,
            ) + action_pair(action),
        ),
{
    let mut endpoint = build_subreddit(subreddit_name).join(EndpointBuilder::new("about/log"));
    add_text(&mut endpoint, "after", after);
    let capped: Option<u32> = match limit {
        Some(limit) => if limit < 500 {
            Some(limit as u32)
        } else {
            Some(500)
        },
        None => None,
    };
    add_number(&mut endpoint, "limit", capped);
    add_text(&mut endpoint, "mod", moderators);
    match action {
        Some(action) => {
            endpoint.with_query("type", action.name());
        },
        None => {},
    }
    proof {
        assert(endpoint.query_view() =~= text_pair("after"@, *after) + number_pair(
            "limit"@,
            mod_log_limit(limit),
        ) + text_pair("mod"@, *moderators) + action_pair(action));
    }
    get(endpoint)
}

} // verus!
