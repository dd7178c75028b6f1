use roux::api::comment::{ArticleCommentOrMoreComments, MoreCommentData};
use roux::fullname::ThingFullname;
use roux::api::distinguished::Distinguished;
use roux::api::response::{is_complete_post_response, 
    open_post_response, ApiError, BasicListing, BasicThing, LazyThingCreatedData, Listing,
    ListingNotFullname, MultipleBasicThingsData, PostOutcome,
};
use roux::api::submission::{
    ArticleCommentsResponseWithoutComments, MediaMetadataMap, SubmissionData,
    SubmissionDataMediaMetadata, SubmissionDataPreview, SubmissionMetadataAnimatedImage,
    SubmissionMetadataImage,
};
use roux::api::things::{
    CreatedCommentData, FlairId, FlairSelection, InboxData, LatestCommentData,
    LiveThreadCreated, LiveThreadData,
    LiveThreadState, ModActionData, ModActionType, ModeratorData, SavedData,
    SubredditRemovalReasons,
};
use roux::client::{decode_post_response, decode_response, is_no_sticky, logout_result, sticky_result};
use roux::config::Config;
use roux::decode::{Decode, DecodeError};
use roux::endpoint::EndpointBuilder;
use roux::error::{RedditFailure, RouxError, RouxErrorKind};
use roux::json::{Json, Member};
use roux::models::{
    default_string, get_enum_name, null_to_empty, ArticleCommentOrMore, FromClientAndData,
    Listing as Page, LiveThread, Me, Message, Saved, Submission, Subreddit, UnauthedClient, User,
};

fn submission_json(id: &str, extra: &str) -> String {
    format!(
        r#"{{"id":"{id}","name":"t3_{id}","subreddit":"rust","subreddit_id":"t5_2s7lj","subreddit_name_prefixed":"r/rust","author":"someone","title":"A title","selftext":"","selftext_html":null,"url":"https://example.com","thumbnail":"default","permalink":"/r/rust/comments/{id}/a_title/","score":10,"ups":10,"downs":0,"upvote_ratio":0.97,"created":1725096693.0,"created_utc":1725096693.0,"over_18":false,"spoiler":false,"is_self":false,"locked":false,"stickied":true,"archived":false,"gilded":0,"clicked":false,"hidden":false,"num_comments":4,"hide_score":false,"edited":false,"saved":false,"quarantine":false,"visited":false,"likes":null,"domain":"example.com"{extra}}}"#
    )
}

fn listing_of(children: &[String]) -> String {
    let things: Vec<String> = children
        .iter()
        .map(|data| format!(r#"{{"kind":"t3","data":{data}}}"#))
        .collect();
    format!(
        r#"{{"kind":"Listing","data":{{"modhash":null,"dist":{},"after":"t3_next","before":null,"children":[{}]}}}}"#,
        children.len(),
        things.join(",")
    )
}

#[test]
fn submission_decodes_with_defaults() {
    let doc = Json::parse(&submission_json("abc", "")).unwrap();
    let submission = SubmissionData::decode(&doc).unwrap();
    assert_eq!(submission.id, "abc");
    assert_eq!(submission.name.full(), "t3_abc");
    assert_eq!(submission.subreddit_name_prefixed.as_deref(), Some("r/rust"));
    assert_eq!(submission.domain.as_deref(), Some("example.com"));
    assert_eq!(submission.likes, None);
    assert_eq!(submission.num_comments, 4);
    assert_eq!(submission.edited, Json::Bool(false));
    assert_eq!(submission.distinguished, Distinguished::NotDistinguished);
    assert_eq!(submission.selftext_html, None);
    assert_eq!(submission.url.as_deref(), Some("https://example.com"));
    assert_eq!(submission.score, serde_json::Number::from(10u64));
    assert_eq!(submission.upvote_ratio, serde_json::Number::from_f64(0.97).unwrap());
    assert!(!submission.is_gallery);
    assert!(!submission.is_video);
    assert!(submission.stickied);
    assert_eq!(submission.preview, None);
    assert_eq!(submission.gallery_data, None);
    assert_eq!(submission.media_metadata, None);
    assert_eq!(submission.moderation, None);
}

#[test]
fn submission_without_moderation_when_flag_is_false_or_absent() {
    let plain = Json::parse(&submission_json("abc", r#","can_mod_post":false,"approved":true"#)).unwrap();
    assert_eq!(SubmissionData::decode(&plain).unwrap().moderation, None);
    let broken = Json::parse(&submission_json("abc", r#","can_mod_post":true"#)).unwrap();
    assert_eq!(SubmissionData::decode(&broken), Err(DecodeError));
    let moderated = Json::parse(&submission_json(
        "abc",
        r#","can_mod_post":true,"approved":true,"approved_at_utc":1.0,"approved_by":"amod","ban_note":null,"banned_at_utc":null,"banned_by":null,"ignore_reports":false,"mod_note":null,"mod_reason_by":null,"mod_reason_title":null,"mod_reports":[["amod","why"]],"num_reports":1,"removal_reason":null,"removed":false,"removed_by":null,"removed_by_category":null,"spam":false,"user_reports":[["A rule",5,false,true]]"#,
    ))
    .unwrap();
    let moderation = SubmissionData::decode(&moderated).unwrap().moderation.unwrap();
    assert!(moderation.approved);
    assert_eq!(moderation.approved_by.as_deref(), Some("amod"));
    assert_eq!(moderation.mod_reports[0].reason(), "why");
    assert_eq!(moderation.user_reports[0].count, 5);
}

#[test]
fn submission_model_hands_out_its_fields() {
    let doc = Json::parse(&submission_json("abc", "")).unwrap();
    let data = SubmissionData::decode(&doc).unwrap();
    let model = Submission::new("client", data);
    assert_eq!(model.client, "client");
    assert_eq!(model.id(), "abc");
    assert_eq!(model.name().full(), "t3_abc");
    assert_eq!(model.subreddit(), "rust");
    assert_eq!(model.subreddit_id().full(), "t5_2s7lj");
    assert_eq!(model.author(), "someone");
    assert_eq!(model.title(), "A title");
    assert_eq!(model.selftext(), "");
    assert_eq!(model.selftext_html(), &None);
    assert_eq!(model.url().as_deref(), Some("https://example.com"));
    assert_eq!(model.thumbnail(), "default");
    assert_eq!(model.permalink(), "/r/rust/comments/abc/a_title/");
    assert_eq!(model.score(), &serde_json::Number::from(10u64));
    assert_eq!(model.ups(), &serde_json::Number::from(10u64));
    assert_eq!(model.downs(), &serde_json::Number::from(0u64));
    assert_eq!(model.upvote_ratio().as_f64(), Some(0.97));
    assert_eq!(model.created().as_f64(), Some(1725096693.0));
    assert_eq!(model.created_utc().as_f64(), Some(1725096693.0));
    assert!(!model.over_18());
    assert!(!model.spoiler());
    assert!(!model.is_self());
    assert!(!model.is_gallery());
    assert!(!model.is_video());
    assert!(!model.locked());
    assert!(model.stickied());
    assert!(!model.archived());
    assert_eq!(model.preview(), &None);
    assert_eq!(model.gallery_data(), &None);
    assert_eq!(model.media_metadata(), &None);
    assert_eq!(model.moderation(), &None);
    assert_eq!(model.domain().as_deref(), Some("example.com"));
    assert_eq!(model.likes(), None);
    assert_eq!(model.suggested_sort(), &None);
    assert_eq!(model.link_flair_text(), &None);
    assert_eq!(model.link_flair_template_id(), &None);
    assert_eq!(model.author_flair_template_id(), &None);
    assert_eq!(model.link_flair_css_class(), &None);
    assert_eq!(model.author_flair_css_class(), &None);
    assert_eq!(model.author_flair_text(), &None);
    assert_eq!(model.gilded(), 0);
    assert_eq!(model.num_comments(), 4);
    assert_eq!(model.edited(), &Json::Bool(false));
    assert_eq!(model.distinguished(), Distinguished::NotDistinguished);
    assert!(!model.clicked() && !model.hidden() && !model.hide_score());
    assert!(!model.saved() && !model.quarantine() && !model.visited());
}

#[test]
fn submission_missing_or_misshapen_fields_fail() {
    let without_title = submission_json("abc", "").replace(r#""title":"A title","#, "");
    assert_eq!(
        SubmissionData::decode(&Json::parse(&without_title).unwrap()),
        Err(DecodeError)
    );
    let bad_name = submission_json("abc", "").replace(r#""name":"t3_abc""#, r#""name":"abc""#);
    assert_eq!(SubmissionData::decode(&Json::parse(&bad_name).unwrap()), Err(DecodeError));
    let bad_flag = submission_json("abc", r#","is_video":"no""#);
    assert_eq!(SubmissionData::decode(&Json::parse(&bad_flag).unwrap()), Err(DecodeError));
}

#[test]
fn preview_gallery_and_media() {
    let extra = r#","is_gallery":true,"preview":{"images":[{"source":{"url":"u","width":10,"height":20},"resolutions":[{"url":"s","width":1,"height":2}],"id":"img"}],"enabled":true},"gallery_data":{"items":[{"caption":null,"id":1.0,"media_id":"m1"},{"caption":"c","id":2,"media_id":"m2"}]},"media_metadata":{"m1":{"e":"Image","id":"m1","m":"image/png","s":{"u":"https://i","x":3,"y":4}},"m2":{"e":"AnimatedImage","id":"m2","m":"image/gif","s":{"x":5,"y":6,"gif":"g","mp4":"v"}},"m3":{"e":"RedditVideo","id":"m3","isGif":false,"status":"valid","x":7,"y":-8,"dashUrl":"d","hlsUrl":"h"},"m4":{"status":"failed"}}"#;
    let doc = Json::parse(&submission_json("abc", extra)).unwrap();
    let submission = SubmissionData::decode(&doc).unwrap();
    assert!(submission.is_gallery);
    let preview: &SubmissionDataPreview = submission.preview.as_ref().unwrap();
    assert!(preview.enabled);
    assert_eq!(preview.images[0].source.width, 10);
    assert_eq!(preview.images[0].resolutions[0].url, "s");
    let gallery = submission.gallery_data.as_ref().unwrap();
    assert_eq!(gallery.items.len(), 2);
    assert_eq!(gallery.items[1].caption.as_deref(), Some("c"));
    let media: &MediaMetadataMap = submission.media_metadata.as_ref().unwrap();
    assert_eq!(media.entries.len(), 4);
    assert_eq!(media.entries[0].id, "m1");
    assert_eq!(
        media.entries[0].media,
        SubmissionDataMediaMetadata::Image {
            id: String::from("m1"),
            m: String::from("image/png"),
            s: SubmissionMetadataImage { u: String::from("https://i"), x: 3, y: 4 },
        }
    );
    assert_eq!(
        media.entries[1].media,
        SubmissionDataMediaMetadata::AnimatedImage {
            id: String::from("m2"),
            m: String::from("image/gif"),
            s: SubmissionMetadataAnimatedImage {
                x: 5,
                y: 6,
                gif: String::from("g"),
                mp4: String::from("v"),
            },
        }
    );
    assert_eq!(
        media.entries[2].media,
        SubmissionDataMediaMetadata::RedditVideo {
            id: String::from("m3"),
            is_gif: false,
            status: String::from("valid"),
            x: 7,
            y: -8,
            dash_url: String::from("d"),
            hls_url: String::from("h"),
        }
    );
    assert_eq!(media.entries[3].media, SubmissionDataMediaMetadata::Unknown);
}

#[test]
fn media_with_unknown_or_misshapen_tag_fails() {
    let decode = |text: &str| SubmissionDataMediaMetadata::decode(&Json::parse(text).unwrap());
    assert_eq!(decode(r#"{"e":"Sound","id":"x"}"#), Err(DecodeError));
    assert_eq!(decode(r#"{"e":5}"#), Err(DecodeError));
    assert_eq!(decode(r#"{"e":"Image","id":"x","m":"image/png"}"#), Err(DecodeError));
    assert_eq!(decode(r#"[]"#), Err(DecodeError));
    assert_eq!(decode(r#"{}"#), Ok(SubmissionDataMediaMetadata::Unknown));
    let twice = Json::Object(vec![
        Member { key: String::from("m"), value: Json::Object(Vec::new()) },
        Member { key: String::from("m"), value: Json::Object(Vec::new()) },
    ]);
    assert_eq!(MediaMetadataMap::decode(&twice), Err(DecodeError));
    let map = MediaMetadataMap::decode(
        &Json::parse(r#"{"a":{},"b":{"e":"Image","id":"b","m":"t","s":{"u":"u","x":1,"y":2}}}"#).unwrap(),
    )
    .unwrap();
    assert_eq!(map.get("a"), Some(&SubmissionDataMediaMetadata::Unknown));
    assert!(matches!(map.get("b"), Some(SubmissionDataMediaMetadata::Image { .. })));
    assert_eq!(map.get("c"), None);
}

#[test]
fn listing_pages_differ_in_their_last_child() {
    let page1: Vec<String> = (0..5).map(|i| submission_json(&format!("a{i}"), "")).collect();
    let page2: Vec<String> = (0..5).map(|i| submission_json(&format!("b{i}"), "")).collect();
    let first: BasicListing<SubmissionData> =
        decode_response(&listing_of(&page1)).unwrap();
    let second: BasicListing<SubmissionData> =
        decode_response(&listing_of(&page2)).unwrap();
    assert_eq!(first.kind.as_deref(), Some("Listing"));
    assert_eq!(first.data.after.as_ref().unwrap().full(), "t3_next");
    assert_eq!(first.data.dist, Some(5));
    assert_eq!(second.data.children.len(), 5);
    assert_ne!(
        first.data.children.last().unwrap().data.id,
        second.data.children.last().unwrap().data.id
    );
    let page = Page::<Submission<u8>>::new(second, 7u8);
    assert_eq!(page.children.len(), 5);
    assert_eq!(page.children[4].id(), "b4");
    assert_eq!(page.children[0].client, 7);
    assert_eq!(page.after.as_ref().unwrap().full(), "t3_next");
    let ids = Page::<String>::new_converter(first, |data: SubmissionData| data.id);
    assert_eq!(ids.children, vec!["a0", "a1", "a2", "a3", "a4"]);
    assert_eq!(ids.dist, Some(5));
}

#[test]
fn sticky_response_takes_the_first_submission() {
    let text = format!(r#"[{},{{"anything":1}}]"#, listing_of(&[submission_json("abc", "")]));
    let response: ArticleCommentsResponseWithoutComments = decode_response(&text).unwrap();
    assert_eq!(response.submission.id, "abc");
    let empty = format!(r#"[{},1]"#, listing_of(&[]));
    assert!(decode_response::<ArticleCommentsResponseWithoutComments>(&empty).is_err());
    assert!(decode_response::<ArticleCommentsResponseWithoutComments>("[1]").is_err());
    let err = decode_response::<ArticleCommentsResponseWithoutComments>("not json").unwrap_err();
    assert!(matches!(err.kind, RouxErrorKind::Parse(_)));
}

#[test]
fn answers_to_posts() {
    let failed = Json::parse(
        r#"{"json":{"errors":[["RATELIMIT","you are doing that too much. try again in 34 minutes.","vdelay"],["BAD","m",null],["SHORT","m"]],"data":{"id":"x","name":"t3_x"}}}"#,
    )
    .unwrap();
    let expected = vec![
        ApiError {
            code: String::from("RATELIMIT"),
            message: String::from("you are doing that too much. try again in 34 minutes."),
            field: Some(String::from("vdelay")),
        },
        ApiError { code: String::from("BAD"), message: String::from("m"), field: None },
        ApiError { code: String::from("SHORT"), message: String::from("m"), field: None },
    ];
    match open_post_response(&failed).unwrap() {
        PostOutcome::Errors(errors) => assert_eq!(errors, expected),
        other => panic!("expected errors, got {:?}", other),
    }
    assert_eq!(
        decode_post_response::<LazyThingCreatedData>(&failed).unwrap_err().kind,
        RouxErrorKind::RedditError(RedditFailure::Errors(expected))
    );
    let made = Json::parse(r#"{"json":{"errors":[],"data":{"id":"x","name":"t3_x"}}}"#).unwrap();
    let created: LazyThingCreatedData = decode_post_response(&made).unwrap();
    assert_eq!(created.id, "x");
    assert_eq!(created.name.full(), "t3_x");
    let null_errors = Json::parse(r#"{"json":{"errors":null,"data":{"id":"x","name":"t3_x"}}}"#).unwrap();
    assert!(decode_post_response::<LazyThingCreatedData>(&null_errors).is_ok());
    for text in [r#"{"json":{"errors":[]}}"#, r#"{"json":{"errors":[],"data":null}}"#, r#"{"json":{"errors":null}}"#] {
        assert!(!is_complete_post_response(&Json::parse(text).unwrap()), "{}", text);
    }
    assert!(is_complete_post_response(&failed));
    assert!(is_complete_post_response(&made));
    for text in [
        r#"{"json":{"data":{"id":"x","name":"t3_x"}}}"#,
        r#"{"json":{"errors":[["ONLY"]],"data":{}}}"#,
        r#"{"json":{"errors":"no","data":{}}}"#,
        r#"{"errors":[]}"#,
    ] {
        let doc = Json::parse(text).unwrap();
        assert!(is_complete_post_response(&doc), "{}", text);
        assert_eq!(open_post_response(&doc), Err(DecodeError), "{}", text);
        let err = decode_post_response::<LazyThingCreatedData>(&doc).unwrap_err();
        assert!(matches!(err.kind, RouxErrorKind::Parse(_)));
    }
}

#[test]
fn created_things_and_single_results() {
    let doc = Json::parse(
        r#"{"things":[{"kind":"t1","data":{"id":"a","name":"t1_a"}},{"kind":"t1","data":{"id":"b","name":"t1_b"}}]}"#,
    )
    .unwrap();
    let things = MultipleBasicThingsData::<LazyThingCreatedData>::decode(&doc).unwrap();
    assert_eq!(things.things.len(), 2);
    assert_eq!(things.assume_single().id, "a");
    let none = MultipleBasicThingsData::<LazyThingCreatedData> { things: Vec::new() };
    assert_eq!(none.first(), None);
    let one = MultipleBasicThingsData {
        things: vec![BasicThing { kind: None, data: 5u8 }],
    };
    assert_eq!(one.first(), Some(5));
}

fn comment_fields() -> &'static str {
    r#""author":"someone","body":"1 &lt; 2","body_html":"x","id":"c1","name":"t1_c1","parent_id":"t3_xyz","link_id":"t3_xyz","subreddit":"rust","subreddit_id":"t5_2s7lj","permalink":"/p","ups":3,"downs":0,"score":3,"created":1.0,"created_utc":1.0,"edited":17.5,"distinguished":"moderator","mod_reports":[],"user_reports":[["A rule",5,false,true]],"locked":false,"stickied":false,"saved":true,"archived":false,"removed":false,"all_awardings":[],"author_is_blocked":false,"awarders":[],"can_gild":true,"can_mod_post":false,"collapsed":false,"controversiality":0,"gilded":0,"gildings":{},"is_submitter":false,"no_follow":true,"score_hidden":false,"send_replies":true,"subreddit_name_prefixed":"r/rust","subreddit_type":"public","total_awards_received":0,"treatment_tags":[],"likes":true,"author_fullname":"t2_abc""#
}

fn link_fields() -> &'static str {
    r#""link_author":"op","link_permalink":"/l","link_title":"T","link_url":"https://l","num_comments":4,"over_18":false,"quarantine":false"#
}

#[test]
fn saved_items_are_told_apart_by_kind() {
    let comment = format!(r#"{{"kind":"t1","data":{{{},{}}}}}"#, comment_fields(), link_fields());
    match SavedData::decode(&Json::parse(&comment).unwrap()).unwrap() {
        SavedData::Comment(data) => {
            assert_eq!(data.common.body, "1 < 2");
            assert_eq!(data.common.removed, Some(false));
            assert_eq!(data.common.likes, Some(Json::Bool(true)));
            assert_eq!(data.common.gildings, Json::Object(Vec::new()));
            assert_eq!(data.common.user_reports.len(), 1);
            assert_eq!(data.common.author_fullname.as_ref().unwrap().full(), "t2_abc");
            assert_eq!(data.common.banned_by, None);
            assert_eq!(data.common.report_reasons, None);
            assert_eq!(data.link_title, "T");
            assert_eq!(data.num_comments, 4);
        }
        other => panic!("expected a comment, got {:?}", other),
    }
    let post = format!(r#"{{"kind":"t3","data":{}}}"#, submission_json("abc", ""));
    let saved = SavedData::decode(&Json::parse(&post).unwrap()).unwrap();
    assert!(matches!(saved, SavedData::Submission(_)));
    match Saved::new(1u8, saved) {
        Saved::Submission(submission) => assert_eq!(submission.title(), "A title"),
        other => panic!("expected a submission, got {:?}", other),
    }
    let other = format!(r#"{{"kind":"t5","data":{}}}"#, submission_json("abc", ""));
    assert_eq!(SavedData::decode(&Json::parse(&other).unwrap()), Err(DecodeError));
    let crossed = format!(r#"{{"kind":"t1","data":{}}}"#, submission_json("abc", ""));
    assert_eq!(SavedData::decode(&Json::parse(&crossed).unwrap()), Err(DecodeError));
}

#[test]
fn comment_variants() {
    let latest = format!("{{{},{}}}", comment_fields(), link_fields());
    assert!(LatestCommentData::decode(&Json::parse(&latest).unwrap()).is_ok());
    let bare = format!("{{{}}}", comment_fields());
    assert_eq!(LatestCommentData::decode(&Json::parse(&bare).unwrap()), Err(DecodeError));
    let created = format!(r#"{{{},"rte_mode":"markdown"}}"#, comment_fields());
    let data = CreatedCommentData::decode(&Json::parse(&created).unwrap()).unwrap();
    assert_eq!(data.rte_mode, "markdown");
    assert_eq!(CreatedCommentData::decode(&Json::parse(&bare).unwrap()), Err(DecodeError));
}

#[test]
fn messages_and_live_threads() {
    let message = Json::parse(
        r#"{"id":"m","subject":"S","was_comment":false,"author":null,"parent_id":"t4_p","new":true,"type":"unknown","body":"B","dest":"me","context":"/c","body_html":"H","name":"t4_m","created":1.0,"created_utc":2.0,"first_message_name":null}"#,
    )
    .unwrap();
    let data = InboxData::decode(&message).unwrap();
    let model = Message::new(3u8, data);
    assert_eq!(model.id(), "m");
    assert_eq!(model.subject(), "S");
    assert!(model.is_new());
    assert!(!model.was_comment());
    assert_eq!(model.author(), &None);
    assert_eq!(model.parent_id().as_ref().unwrap().full(), "t4_p");
    assert_eq!(model.name().full(), "t4_m");
    assert_eq!(model.dest(), "me");
    assert_eq!(model.body(), "B");
    assert_eq!(model.body_html(), "H");
    assert_eq!(model.first_message_name(), &None);
    assert_eq!(model.message_type(), "unknown");
    assert_eq!(model.context(), "/c");

    let live = Json::parse(
        r#"{"id":"abc","title":"T","state":"live","description":"d","description_html":"h","websocket_url":"wss://x","created":1.0,"created_utc":1.0,"viewer_count":12,"total_views":null,"nsfw":false,"button_cta":"","name":"LiveUpdateEvent_abc","is_announcement":false,"announcement_url":"","num_times_dismissable":1,"viewer_count_fuzzed":true,"resources_html":"","resources":"","icon":""}"#,
    )
    .unwrap();
    let data = LiveThreadData::decode(&live).unwrap();
    assert_eq!(data.state, LiveThreadState::Live);
    assert_eq!(data.websocket_url.as_deref(), Some("wss://x"));
    assert_eq!(data.viewer_count, Some(12));
    assert_eq!(data.fullname, "LiveUpdateEvent_abc");
    assert_eq!(data.viewer_count_fuzzed, Some(true));
    assert_eq!(LiveThread::new((), data).url(), "https://www.reddit.com/live/abc");
    let made: LiveThreadCreated = decode_post_response(
        &Json::parse(r#"{"json":{"errors":[],"data":{"id":"abc"}}}"#).unwrap(),
    )
    .unwrap();
    assert_eq!(made.id, "abc");
    assert_eq!(
        LiveThreadState::decode(&Json::parse("\"complete\"").unwrap()),
        Ok(LiveThreadState::Complete)
    );
    assert_eq!(
        LiveThreadState::decode(&Json::parse("\"Live\"").unwrap()),
        Err(DecodeError)
    );
}

#[test]
fn moderators_flairs_reasons_and_log() {
    let moderators: BasicThing<Listing<ModeratorData>> = decode_response(
        r#"{"kind":"UserList","data":{"children":[{"id":"t2_a","name":"amod","author_flair_text":null,"mod_permissions":["all"]},{"id":"t2_b","name":"bmod"}]}}"#,
    )
    .unwrap();
    assert_eq!(moderators.data.children.len(), 2);
    assert_eq!(moderators.data.children[0].mod_permissions.as_ref().unwrap()[0].text, "all");
    assert_eq!(moderators.data.children[1].mod_permissions, None);

    let flairs: FlairSelection = decode_response(
        r#"{"choices":[{"flair_css_class":"c","flair_position":"left","flair_template_id":"guid","flair_text":"t","flair_text_editable":false}],"current":{"flair_css_class":"","flair_position":"left","flair_template_id":null,"flair_text":null}}"#,
    )
    .unwrap();
    assert_eq!(flairs.choices[0].flair_template_id, FlairId(String::from("guid")));
    assert_eq!(flairs.choices[0].flair_template_id.as_str(), "guid");
    assert_eq!(flairs.current.flair_template_id, None);

    let reasons: SubredditRemovalReasons = decode_response(
        r#"{"data":{"r2":{"message":"m2","id":"r2","title":"t2"},"r1":{"message":"m1","id":"r1","title":"t1"}},"order":["r1","r2"]}"#,
    )
    .unwrap();
    assert_eq!(reasons.data[0].key, "r2");
    assert_eq!(reasons.data[0].reason.id, "r2");
    assert_eq!(reasons.data[1].reason.title, "t1");
    assert_eq!(reasons.order[0].text, "r1");

    let log: BasicThing<ListingNotFullname<BasicThing<ModActionData>>> = decode_response(
        r#"{"kind":"Listing","data":{"after":"ModAction_x","before":null,"children":[{"kind":"modaction","data":{"id":"ModAction_1","details":"","action":"approve_award","mod_id36":"abc","created_utc":1.0,"subreddit":"rust","target_title":null,"target_permalink":null,"target_body":null,"target_author":"u","target_fullname":"t3_abc","mod":"amod"}}]}}"#,
    )
    .unwrap();
    assert_eq!(log.data.after.as_deref(), Some("ModAction_x"));
    let action = &log.data.children[0].data;
    assert_eq!(action.action, ModActionType::ApproveAward);
    assert_eq!(action.moderator, "amod");
    assert_eq!(action.target_fullname.as_ref().unwrap().full(), "t3_abc");
    assert_eq!(get_enum_name(&ModActionType::RemoveComment), "removecomment");
    assert_eq!(ModActionType::from_name("banuser"), Some(ModActionType::BanUser));
    assert_eq!(ModActionType::from_name("BanUser"), None);
    assert_eq!(ModActionType::from_name("chatremovehost"), None);
}

#[test]
fn every_kind_of_moderator_action_has_its_name() {
    let kinds = [
        (ModActionType::BanUser, "banuser"),
        (ModActionType::UnbanUser, "unbanuser"),
        (ModActionType::SpamLink, "spamlink"),
        (ModActionType::RemoveLink, "removelink"),
        (ModActionType::ApproveLink, "approvelink"),
        (ModActionType::SpamComment, "spamcomment"),
        (ModActionType::RemoveComment, "removecomment"),
        (ModActionType::ApproveComment, "approvecomment"),
        (ModActionType::AddModerator, "addmoderator"),
        (ModActionType::ShowComment, "showcomment"),
        (ModActionType::InviteModerator, "invitemoderator"),
        (ModActionType::UninviteModerator, "uninvitemoderator"),
        (ModActionType::AcceptModeratorInvite, "acceptmoderatorinvite"),
        (ModActionType::RemoveModerator, "removemoderator"),
        (ModActionType::AddContributor, "addcontributor"),
        (ModActionType::RemoveContributor, "removecontributor"),
        (ModActionType::EditSettings, "editsettings"),
        (ModActionType::EditFlair, "editflair"),
        (ModActionType::Distinguish, "distinguish"),
        (ModActionType::MarkNsfw, "marknsfw"),
        (ModActionType::WikiBanned, "wikibanned"),
        (ModActionType::WikiContributor, "wikicontributor"),
        (ModActionType::WikiUnbanned, "wikiunbanned"),
        (ModActionType::WikiPageListed, "wikipagelisted"),
        (ModActionType::RemoveWikiContributor, "removewikicontributor"),
        (ModActionType::WikiRevise, "wikirevise"),
        (ModActionType::WikiPermLevel, "wikipermlevel"),
        (ModActionType::IgnoreReports, "ignorereports"),
        (ModActionType::UnignoreReports, "unignorereports"),
        (ModActionType::SetPermissions, "setpermissions"),
        (ModActionType::SetSuggestedSort, "setsuggestedsort"),
        (ModActionType::Sticky, "sticky"),
        (ModActionType::Unsticky, "unsticky"),
        (ModActionType::SetContestMode, "setcontestmode"),
        (ModActionType::UnsetContestMode, "unsetcontestmode"),
        (ModActionType::Lock, "lock"),
        (ModActionType::Unlock, "unlock"),
        (ModActionType::MuteUser, "muteuser"),
        (ModActionType::UnmuteUser, "unmuteuser"),
        (ModActionType::CreateRule, "createrule"),
        (ModActionType::EditRule, "editrule"),
        (ModActionType::ReorderRules, "reorderrules"),
        (ModActionType::DeleteRule, "deleterule"),
        (ModActionType::Spoiler, "spoiler"),
        (ModActionType::Unspoiler, "unspoiler"),
        (ModActionType::ModmailEnrollment, "modmail_enrollment"),
        (ModActionType::CommunityStatus, "community_status"),
        (ModActionType::CommunityStyling, "community_styling"),
        (ModActionType::CommunityWelcomePage, "community_welcome_page"),
        (ModActionType::CommunityWidgets, "community_widgets"),
        (ModActionType::MarkOriginalContent, "markoriginalcontent"),
        (ModActionType::Collections, "collections"),
        (ModActionType::Events, "events"),
        (ModActionType::HiddenAward, "hidden_award"),
        (ModActionType::AddCommunityTopics, "add_community_topics"),
        (ModActionType::RemoveCommunityTopics, "remove_community_topics"),
        (ModActionType::CreateScheduledPost, "create_scheduled_post"),
        (ModActionType::EditScheduledPost, "edit_scheduled_post"),
        (ModActionType::DeleteScheduledPost, "delete_scheduled_post"),
        (ModActionType::SubmitScheduledPost, "submit_scheduled_post"),
        (ModActionType::EditCommentRequirements, "edit_comment_requirements"),
        (ModActionType::EditPostRequirements, "edit_post_requirements"),
        (ModActionType::InviteSubscriber, "invitesubscriber"),
        (ModActionType::SubmitContentRatingSurvey, "submit_content_rating_survey"),
        (ModActionType::AdjustPostCrowdControlLevel, "adjust_post_crowd_control_level"),
        (ModActionType::EnablePostCrowdControlFilter, "enable_post_crowd_control_filter"),
        (ModActionType::DisablePostCrowdControlFilter, "disable_post_crowd_control_filter"),
        (ModActionType::DeleteOverriddenClassification, "deleteoverriddenclassification"),
        (ModActionType::OverrideClassification, "overrideclassification"),
        (ModActionType::ReorderModerators, "reordermoderators"),
        (ModActionType::RequestAssistance, "request_assistance"),
        (ModActionType::SnoozeReports, "snoozereports"),
        (ModActionType::UnsnoozeReports, "unsnoozereports"),
        (ModActionType::AddNote, "addnote"),
        (ModActionType::DeleteNote, "deletenote"),
        (ModActionType::AddRemovalReason, "addremovalreason"),
        (ModActionType::CreateRemovalReason, "createremovalreason"),
        (ModActionType::UpdateRemovalReason, "updateremovalreason"),
        (ModActionType::DeleteRemovalReason, "deleteremovalreason"),
        (ModActionType::ReorderRemovalReason, "reorderremovalreason"),
        (ModActionType::DevPlatformAppChanged, "dev_platform_app_changed"),
        (ModActionType::DevPlatformAppDisabled, "dev_platform_app_disabled"),
        (ModActionType::DevPlatformAppEnabled, "dev_platform_app_enabled"),
        (ModActionType::DevPlatformAppInstalled, "dev_platform_app_installed"),
        (ModActionType::DevPlatformAppUninstalled, "dev_platform_app_uninstalled"),
        (ModActionType::EditSavedResponse, "edit_saved_response"),
        (ModActionType::ChatApproveMessage, "chat_approve_message"),
        (ModActionType::ChatRemoveMessage, "chat_remove_message"),
        (ModActionType::ChatBanUser, "chat_ban_user"),
        (ModActionType::ChatUnbanUser, "chat_unban_user"),
        (ModActionType::ChatInviteHost, "chat_invite_host"),
        (ModActionType::ChatRemoveHost, "chat_remove_host"),
        (ModActionType::ApproveAward, "approve_award"),
    ];
    assert_eq!(kinds.len(), 93);
    for (i, (kind, name)) in kinds.iter().enumerate() {
        assert_eq!(kind.name(), *name);
        assert_eq!(ModActionType::from_name(name), Some(*kind));
        assert_eq!(
            ModActionType::decode(&Json::Str(name.to_string())),
            Ok(*kind)
        );
        for (other, _) in &kinds[..i] {
            assert_ne!(other, kind);
        }
    }
    let entry = |action: &str| {
        format!(
            r#"{{"id":"ModAction_1","details":"","action":"{action}","mod_id36":"abc","created_utc":1.0,"subreddit":"rust","target_title":null,"target_permalink":null,"target_body":null,"target_author":null,"target_fullname":null,"mod":"amod"}}"#
        )
    };
    for action in ["sticky", "lock", "distinguish", "editflair", "community_status"] {
        let data = ModActionData::decode(&Json::parse(&entry(action)).unwrap()).unwrap();
        assert_eq!(data.action.name(), action);
    }
    assert!(ModActionData::decode(&Json::parse(&entry("no_such_action")).unwrap()).is_err());
}

#[test]
fn results_of_logout_and_sticky() {
    assert!(logout_result(204).is_ok());
    assert_eq!(logout_result(200).unwrap_err().kind, RouxErrorKind::Status(200));
    let not_found = RouxError::new(RouxErrorKind::FullNetwork(404, String::from("nf")));
    assert!(is_no_sticky(&not_found));
    assert!(matches!(sticky_result::<u8>(Err(not_found)), Ok(None)));
    let gone = RouxError::new(RouxErrorKind::FullNetwork(410, String::from("gone")));
    assert!(!is_no_sticky(&gone));
    assert_eq!(
        sticky_result::<u8>(Err(gone)).unwrap_err().kind,
        RouxErrorKind::FullNetwork(410, String::from("gone"))
    );
    let status = RouxError::new(RouxErrorKind::Status(404));
    assert!(sticky_result::<u8>(Err(status)).is_err());
    assert!(matches!(sticky_result(Ok(3u8)), Ok(Some(3))));
    let made = RouxError::new(RouxErrorKind::CredentialsNotSet);
    assert!(!format!("{:?}", made.backtrace.status()).is_empty());
}

#[test]
fn messages_of_errors() {
    let message = |kind| RouxError::new(kind).message();
    assert_eq!(message(RouxErrorKind::Auth(String::from("invalid_grant"))), "Auth error: invalid_grant");
    assert_eq!(
        message(RouxErrorKind::CredentialsNotSet),
        "Must set username and password before calling create_client"
    );
    assert_eq!(
        message(RouxErrorKind::OAuthClientRequired),
        "Endpoint requires authentication with OAuth"
    );
    assert_eq!(
        message(RouxErrorKind::RedditError(RedditFailure::Body(String::from("{}")))),
        "API error: {}"
    );
    assert_eq!(message(RouxErrorKind::Network(String::from("io"))), "io");
    assert_eq!(message(RouxErrorKind::Status(500)), "Status error: 500");
    assert_eq!(
        message(RouxErrorKind::Ratelimited { retry_after: Some(2) }),
        "Ratelimited until Some(2s)"
    );
    assert_eq!(
        message(RouxErrorKind::Ratelimited { retry_after: None }),
        "Ratelimited until None"
    );
    assert_eq!(message(RouxErrorKind::Parse(String::from("eof"))), "eof");
    assert_eq!(
        message(RouxErrorKind::FullNetwork(404, String::from("not found"))),
        "not found"
    );
}

#[test]
fn helpers_of_models() {
    assert_eq!(default_string(), "");
    let values: Vec<LazyThingCreatedData> = null_to_empty(&Json::Null).unwrap();
    assert!(values.is_empty());
    let some: Vec<LazyThingCreatedData> =
        null_to_empty(&Json::parse(r#"[{"id":"a","name":"t1_a"}]"#).unwrap()).unwrap();
    assert_eq!(some[0].id, "a");
    assert!(null_to_empty::<LazyThingCreatedData>(&Json::Bool(true)).is_err());

    let subreddit = Subreddit::new("rust", 1u8);
    assert_eq!(subreddit.name, "rust");
    let endpoint = subreddit.endpoint(EndpointBuilder::new("about").query("a", "b"));
    assert_eq!(endpoint.build(""), "/r/rust/about/.json?a=b&");
    assert_eq!(User::new("someone", ()).user, "someone");
    let config = Config::new("agent", "id", "secret").username("me");
    let me = Me::new(&config, 2u8);
    assert_eq!(me.config.username.as_deref(), Some("me"));
    assert_eq!(me.client, 2);
    let client = UnauthedClient::new();
    assert_eq!(client.user_agent, "generic-client");
    assert_eq!(
        client.url(&EndpointBuilder::new("r/rust/hot")),
        "https://www.reddit.com/r/rust/hot/.json"
    );
    let more = ArticleCommentOrMoreComments::More(
        MoreCommentData {
            id: String::from("a"),
            name: ThingFullname::from_comment_id("a"),
            parent_id: ThingFullname::from_submission_id("x"),
            count: 1,
            depth: 0,
        },
    );
    assert!(matches!(ArticleCommentOrMore::new((), more), ArticleCommentOrMore::More(_)));
}
