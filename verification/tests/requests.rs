use roux::api::things::ModActionType;
use roux::fullname::ThingFullname;
use roux::options::FeedOption;
use roux::requests::{
    about_live_thread, accept_moderator_invite, add_subreddit_friend, article_comments,
    close_live_thread, comment, compose_message, create_live_thread, distinguish, downvoted, edit,
    get_submissions, inbox, invite_live_thread_contributor, latest_comments, list_flairs,
    list_mod_log, list_removal_reasons, lock, logout, mark_read, mark_unread, me, remove,
    remove_subreddit_friend, report, saved, search_subreddits, select_flair, sticky, submit,
    subreddit_feed, subreddit_page, subreddit_sticky, unlock, unread, update_live_thread, upvoted,
    user_about, user_comments, user_overview, user_submitted, ApiRequest, Distinguish,
    FlairSelector, Method, SelectFlairTarget, SubmissionStickySlot,
};
use roux::submit::SubmissionSubmitBuilder;

const BASE: &str = "https://oauth.reddit.com";

fn name(text: &str) -> ThingFullname {
    ThingFullname::try_from(text).unwrap()
}

fn is_get(request: &ApiRequest, url: &str) {
    assert_eq!(request.method, Method::Get);
    assert!(request.form.is_none());
    assert_eq!(request.endpoint.url(BASE), url);
}

fn is_post(request: &ApiRequest, url: &str, form: &str) {
    assert_eq!(request.method, Method::Post);
    assert_eq!(request.endpoint.url(BASE), url);
    let pairs = request.form.as_ref().unwrap().pairs();
    assert_eq!(serde_urlencoded::to_string(pairs).unwrap(), form);
}

#[test]
fn reads_of_the_viewer() {
    is_get(&me(), "https://oauth.reddit.com/api/v1/me/.json");
    is_get(&inbox(), "https://oauth.reddit.com/message/inbox/.json");
    is_get(&unread(), "https://oauth.reddit.com/message/unread/.json");
    is_get(&saved("me", &None), "https://oauth.reddit.com/user/me/saved/.json");
    is_get(&upvoted("me", &None), "https://oauth.reddit.com/user/me/upvoted/.json");
    is_get(&downvoted("me", &None), "https://oauth.reddit.com/user/me/downvoted/.json");
}

#[test]
fn saved_pages_follow_the_cursor() {
    let first = saved("me", &Some(FeedOption::new().limit(5)));
    is_get(&first, "https://oauth.reddit.com/user/me/saved/.json?limit=5&");
    let after = name("t3_1abcd");
    let second = saved("me", &Some(FeedOption::new().limit(5).after(after.full())));
    is_get(
        &second,
        "https://oauth.reddit.com/user/me/saved/.json?after=t3_1abcd&limit=5&",
    );
}

#[test]
fn listings_of_users_and_subreddits() {
    is_get(&user_comments("u", &None), "https://oauth.reddit.com/user/u/comments/.json");
    is_get(&user_overview("u", &None), "https://oauth.reddit.com/user/u/overview/.json");
    is_get(
        &user_submitted("u", &Some(FeedOption::new().count(3))),
        "https://oauth.reddit.com/user/u/submitted/.json?count=3&",
    );
    is_get(&user_about("u", &None), "https://oauth.reddit.com/u/about/.json");
    is_get(
        &search_subreddits("rust", &Some(FeedOption::new().limit(3))),
        "https://oauth.reddit.com/subreddits/search/.json?q=rust&limit=3&",
    );
    is_get(&subreddit_page("rust", "about"), "https://oauth.reddit.com/r/rust/about/.json");
    is_get(
        &subreddit_page("rust", "about/moderators"),
        "https://oauth.reddit.com/r/rust/about/moderators/.json",
    );
    is_get(
        &subreddit_feed("rust", "hot", &Some(FeedOption::new().limit(25))),
        "https://oauth.reddit.com/r/rust/hot/.json?limit=25&",
    );
    is_get(&subreddit_feed("rust", "new", &None), "https://oauth.reddit.com/r/rust/new/.json");
    is_get(
        &latest_comments("rust", None, Some(25)),
        "https://oauth.reddit.com/r/rust/comments/.json?limit=25&",
    );
    is_get(
        &article_comments("rust", &name("t3_1f155ot"), Some(2), Some(4294967295)),
        "https://oauth.reddit.com/r/rust/comments/1f155ot/.json?depth=2&limit=4294967295&",
    );
    is_get(
        &subreddit_sticky("rust", SubmissionStickySlot::Top),
        "https://oauth.reddit.com/r/rust/about/sticky/.json",
    );
    is_get(
        &subreddit_sticky("rust", SubmissionStickySlot::Bottom),
        "https://oauth.reddit.com/r/rust/about/sticky/.json?num=2&",
    );
    is_get(
        &list_removal_reasons("rust"),
        "https://oauth.reddit.com/api/v1/rust/removal_reasons/.json",
    );
    is_get(&about_live_thread("abc"), "https://oauth.reddit.com/api/live/abc/about/.json");
}

#[test]
fn submissions_by_id() {
    assert!(get_submissions(&vec![]).is_none());
    is_get(
        &get_submissions(&vec![name("t3_a")]).unwrap(),
        "https://oauth.reddit.com/by_id/t3_a/.json",
    );
    is_get(
        &get_submissions(&vec![name("t3_a"), name("t3_b"), name("t3_c")]).unwrap(),
        "https://oauth.reddit.com/by_id/t3_a,t3_b,t3_c/.json",
    );
}

#[test]
fn moderation_log_caps_its_limit() {
    is_get(
        &list_mod_log("rust", &None, None, &None, None),
        "https://oauth.reddit.com/r/rust/about/log/.json",
    );
    is_get(
        &list_mod_log(
            "rust",
            &Some(String::from("ModAction_1")),
            Some(499),
            &Some(String::from("amod")),
            Some(ModActionType::ApproveAward),
        ),
        "https://oauth.reddit.com/r/rust/about/log/.json?after=ModAction_1&limit=499&mod=amod&type=approve_award&",
    );
    is_get(
        &list_mod_log("rust", &None, Some(501), &None, Some(ModActionType::BanUser)),
        "https://oauth.reddit.com/r/rust/about/log/.json?limit=500&type=banuser&",
    );
    is_get(
        &list_mod_log("rust", &None, Some(500), &None, None),
        "https://oauth.reddit.com/r/rust/about/log/.json?limit=500&",
    );
}

#[test]
fn posts_with_their_forms() {
    let thing = name("t1_abc");
    is_post(
        &comment("hello there", &thing),
        "https://oauth.reddit.com/api/comment/.json",
        "api_type=json&text=hello+there&parent=t1_abc",
    );
    is_post(
        &edit("new", &thing),
        "https://oauth.reddit.com/api/editusertext/.json",
        "api_type=json&text=new&thing_id=t1_abc",
    );
    is_post(
        &remove(&thing, true),
        "https://oauth.reddit.com/api/remove/.json",
        "api_type=json&spam=true&id=t1_abc",
    );
    is_post(
        &remove(&thing, false),
        "https://oauth.reddit.com/api/remove/.json",
        "api_type=json&spam=false&id=t1_abc",
    );
    is_post(&lock(&thing), "https://oauth.reddit.com/api/lock/.json", "api_type=json&id=t1_abc");
    is_post(
        &unlock(&thing),
        "https://oauth.reddit.com/api/unlock/.json",
        "api_type=json&id=t1_abc",
    );
    is_post(
        &report(&thing, "spam"),
        "https://oauth.reddit.com/api/report/.json",
        "api_type=json&id=t1_abc&reason=spam",
    );
    is_post(
        &mark_read(&name("t4_m")),
        "https://oauth.reddit.com/api/read_message/.json",
        "api_type=json&id=t4_m",
    );
    is_post(
        &mark_unread(&name("t4_m")),
        "https://oauth.reddit.com/api/unread_message/.json",
        "api_type=json&id=t4_m",
    );
    is_post(
        &compose_message("someone", "Hi", "Body"),
        "https://oauth.reddit.com/api/compose/.json",
        "api_type=json&subject=Hi&text=Body&to=someone",
    );
    is_post(
        &add_subreddit_friend("u", "moderator", "rust"),
        "https://oauth.reddit.com/r/rust/api/friend/.json",
        "api_type=json&name=u&type=moderator",
    );
    is_post(
        &remove_subreddit_friend("u", "moderator", "rust"),
        "https://oauth.reddit.com/r/rust/api/unfriend/.json",
        "api_type=json&name=u&type=moderator",
    );
    is_post(
        &accept_moderator_invite("rust"),
        "https://oauth.reddit.com/r/rust/api/accept_moderator_invite/.json",
        "api_type=json",
    );
}

#[test]
fn distinguish_and_sticky() {
    let thing = name("t3_abc");
    let hows = [
        (Distinguish::NotDistinguished, "no"),
        (Distinguish::Moderator, "yes"),
        (Distinguish::Admin, "admin"),
        (Distinguish::Special, "special"),
    ];
    for (kind, how) in hows {
        is_post(
            &distinguish(&thing, kind, false),
            "https://oauth.reddit.com/api/distinguish/.json",
            &format!("api_type=json&how={how}&sticky=false&id=t3_abc"),
        );
    }
    is_post(
        &sticky(&thing, true, SubmissionStickySlot::Top),
        "https://oauth.reddit.com/api/set_subreddit_sticky/.json",
        "api_type=json&id=t3_abc&state=true&num=1",
    );
    is_post(
        &sticky(&thing, true, SubmissionStickySlot::Bottom),
        "https://oauth.reddit.com/api/set_subreddit_sticky/.json",
        "api_type=json&id=t3_abc&state=true",
    );
    is_post(
        &sticky(&thing, false, SubmissionStickySlot::Top),
        "https://oauth.reddit.com/api/set_subreddit_sticky/.json",
        "api_type=json&id=t3_abc&state=false",
    );
}

#[test]
fn flairs() {
    is_post(
        &select_flair("rust", &SelectFlairTarget::Link(name("t3_abc")), "guid"),
        "https://oauth.reddit.com/r/rust/api/selectflair/.json",
        "api_type=json&flair_template_id=guid&text=&link=t3_abc",
    );
    is_post(
        &select_flair("rust", &SelectFlairTarget::User(String::from("u")), "guid"),
        "https://oauth.reddit.com/r/rust/api/selectflair/.json",
        "api_type=json&flair_template_id=guid&text=&name=u",
    );
    is_post(
        &list_flairs("rust", &FlairSelector::NewLink),
        "https://oauth.reddit.com/r/rust/api/flairselector/.json",
        "api_type=json&is_newlink=true",
    );
    is_post(
        &list_flairs("rust", &FlairSelector::Link(name("t3_abc"))),
        "https://oauth.reddit.com/r/rust/api/flairselector/.json",
        "api_type=json&link=t3_abc",
    );
    is_post(
        &list_flairs("rust", &FlairSelector::User(String::from("u"))),
        "https://oauth.reddit.com/r/rust/api/flairselector/.json",
        "api_type=json&name=u",
    );
}

#[test]
fn live_threads_and_logout() {
    is_post(
        &create_live_thread("T", "D", true, "R"),
        "https://oauth.reddit.com/api/live/create/.json",
        "api_type=json&title=T&description=D&resources=R&nsfw=true",
    );
    is_post(
        &invite_live_thread_contributor("abc", "u"),
        "https://oauth.reddit.com/api/live/abc/invite_contributor/.json",
        "api_type=json&type=liveupdate_contributor_invite&name=u&permissions=%2Ball",
    );
    is_post(
        &update_live_thread("abc", "news"),
        "https://oauth.reddit.com/api/live/abc/update/.json",
        "api_type=json&body=news",
    );
    is_post(
        &close_live_thread("abc"),
        "https://oauth.reddit.com/api/live/abc/close_thread/.json",
        "api_type=json",
    );
    is_post(
        &logout("tok"),
        "https://www.reddit.com/api/v1/revoke_token/.json",
        "access_token=tok",
    );
}

#[test]
fn submit_sends_the_fields_of_the_builder() {
    let builder = SubmissionSubmitBuilder::link("A title", "https://example.com", true)
        .with_nsfw(true);
    is_post(
        &submit("rust", &builder),
        "https://oauth.reddit.com/api/submit/.json",
        "sr=rust&title=A+title&sendreplies=true&nsfw=true&resubmit=true&kind=link&url=https%3A%2F%2Fexample.com&api_type=json",
    );
    let text = SubmissionSubmitBuilder::text("T", "B");
    is_post(
        &submit("rust", &text),
        "https://oauth.reddit.com/api/submit/.json",
        "sr=rust&title=T&sendreplies=true&kind=self&text=B&api_type=json",
    );
}
