use roux::api::comment::{ArticleCommentOrMoreComments, ArticleCommentsResponse, ArticleReplies, MoreCommentData};
use roux::api::distinguished::Distinguished;
use roux::api::edited::Edited;
use roux::api::moderation::{decode_moderation, encode_moderation, SubmissionModerationData};
use roux::api::reports::{SubmissionModeratorReport, SubmissionUserReport};
use roux::api::response::{BasicThing, Listing};
use roux::decode::{Decode, DecodeError};
use roux::fullname::ThingFullname;
use roux::json::{Json, Member};

fn object(members: Vec<(&str, Json)>) -> Json {
    Json::Object(
        members
            .into_iter()
            .map(|(key, value)| Member { key: key.to_string(), value })
            .collect(),
    )
}

fn number(value: f64) -> serde_json::Number {
    serde_json::Number::from_f64(value).unwrap()
}

#[test]
fn serde_edited() {
    assert_eq!(
        Edited::decode(&Json::parse("false").unwrap()).unwrap(),
        Edited::NotEdited
    );
    assert_eq!(
        Edited::decode(&Json::parse("123.0").unwrap()).unwrap(),
        Edited::EditedAt(number(123.0))
    );
    assert!(Edited::decode(&Json::parse("true").unwrap()).is_err());
}

#[test]
fn edited_accepts_integer_timestamps_and_rejects_other_shapes() {
    assert_eq!(
        Edited::decode(&Json::parse("1725096693").unwrap()).unwrap(),
        Edited::EditedAt(serde_json::Number::from(1725096693u64))
    );
    assert_eq!(Edited::decode(&Json::parse("null").unwrap()), Err(DecodeError));
    assert_eq!(Edited::decode(&Json::parse("\"yes\"").unwrap()), Err(DecodeError));
    assert_eq!(Edited::decode(&Json::parse("[1]").unwrap()), Err(DecodeError));
}

#[test]
fn edited_round_trips_through_text() {
    assert_eq!(Edited::NotEdited.encode().to_text(), "false");
    assert_eq!(Edited::EditedAt(number(123.0)).encode().to_text(), "123.0");
    let again = Edited::decode(&Json::parse(&Edited::EditedAt(number(1.5)).encode().to_text()).unwrap());
    assert_eq!(again, Ok(Edited::EditedAt(number(1.5))));
}

#[test]
fn deserialize_empty_replies() {
    static NO_REPLIES: &str = r#"{
            "replies": ""
        }"#;

    let response = Json::parse(NO_REPLIES).unwrap();
    let replies = ArticleReplies::decode(response.get("replies").unwrap()).unwrap();
    assert_eq!(replies, ArticleReplies::Empty);
}

#[test]
fn maybe_replies_deserializes() {
    static HAS_REPLIES: &str = r#"{
            "replies": {
                "kind": "Listing",
                "data": {
                    "children": [{
                        "kind": "more",
                        "data": {
                            "id": "abc123",
                            "name": "t1_abc123",
                            "parent_id": "t3_xyz123",
                            "count": 123,
                            "depth": 0
                        }
                    }]
                }
            }
        }"#;

    let response = Json::parse(HAS_REPLIES).unwrap();
    let replies = ArticleReplies::decode(response.get("replies").unwrap()).unwrap();
    assert_eq!(
        replies,
        ArticleReplies::Replies(BasicThing {
            kind: Some(String::from("Listing")),
            data: Listing {
                modhash: None,
                dist: None,
                after: None,
                before: None,
                children: vec![ArticleCommentOrMoreComments::More(MoreCommentData {
                    id: String::from("abc123"),
                    name: ThingFullname::try_from("t1_abc123").unwrap(),
                    parent_id: ThingFullname::try_from("t3_xyz123").unwrap(),
                    count: 123,
                    depth: 0
                })]
            }
        })
    );
}

#[test]
fn replies_lenient_on_any_string_and_strict_on_other_shapes() {
    assert_eq!(
        ArticleReplies::decode(&Json::parse("\"anything\"").unwrap()),
        Ok(ArticleReplies::Empty)
    );
    assert_eq!(ArticleReplies::decode(&Json::parse("null").unwrap()), Err(DecodeError));
    assert_eq!(ArticleReplies::decode(&Json::parse("[]").unwrap()), Err(DecodeError));
    assert_eq!(ArticleReplies::decode(&Json::parse("{}").unwrap()), Err(DecodeError));
}

#[test]
fn replies_of_markers_round_trip() {
    let replies = ArticleReplies::Replies(BasicThing {
        kind: Some(String::from("Listing")),
        data: Listing {
            modhash: None,
            dist: Some(2),
            after: Some(ThingFullname::try_from("t1_zz").unwrap()),
            before: None,
            children: vec![
                ArticleCommentOrMoreComments::More(MoreCommentData {
                    id: String::from("abc"),
                    name: ThingFullname::try_from("t1_abc").unwrap(),
                    parent_id: ThingFullname::try_from("t3_xyz").unwrap(),
                    count: 3,
                    depth: 1,
                }),
                ArticleCommentOrMoreComments::More(MoreCommentData {
                    id: String::from("def"),
                    name: ThingFullname::try_from("t1_def").unwrap(),
                    parent_id: ThingFullname::try_from("t1_abc").unwrap(),
                    count: -1,
                    depth: 2,
                }),
            ],
        },
    });
    let text = replies.encode().to_text();
    assert_eq!(
        text,
        r#"{"kind":"Listing","data":{"modhash":null,"dist":2,"after":"t1_zz","before":null,"children":[{"kind":"more","data":{"id":"abc","name":"t1_abc","parent_id":"t3_xyz","count":3,"depth":1}},{"kind":"more","data":{"id":"def","name":"t1_def","parent_id":"t1_abc","count":-1,"depth":2}}]}}"#
    );
    assert_eq!(ArticleReplies::decode(&Json::parse(&text).unwrap()), Ok(replies));
    assert_eq!(ArticleReplies::Empty.encode().to_text(), "\"\"");
    assert_eq!(
        ArticleReplies::decode(&ArticleReplies::Empty.encode()),
        Ok(ArticleReplies::Empty)
    );
}

fn check_distinguished(json: &str, expected: Distinguished) {
    let value = Json::parse(json).unwrap();
    assert_eq!(
        Distinguished::decode_field(&value, "distinguished").unwrap(),
        expected
    );
    let back = object(vec![("distinguished", expected.encode())]).to_text();
    assert_eq!(back, json);
}

#[test]
fn test_null_is_none() {
    check_distinguished(r#"{"distinguished":null}"#, Distinguished::NotDistinguished);
}

#[test]
fn test_moderator() {
    check_distinguished(r#"{"distinguished":"moderator"}"#, Distinguished::Moderator);
}

#[test]
fn test_admin() {
    check_distinguished(r#"{"distinguished":"admin"}"#, Distinguished::Admin);
}

#[test]
fn test_special() {
    check_distinguished(r#"{"distinguished":"special"}"#, Distinguished::Special);
}

#[test]
fn distinguished_missing_is_none_and_other_strings_fail() {
    assert_eq!(
        Distinguished::decode_field(&Json::parse("{}").unwrap(), "distinguished"),
        Ok(Distinguished::NotDistinguished)
    );
    assert_eq!(
        Distinguished::decode(&Json::parse("\"owner\"").unwrap()),
        Err(DecodeError)
    );
    assert_eq!(Distinguished::decode(&Json::parse("3").unwrap()), Err(DecodeError));
    for value in [
        Distinguished::NotDistinguished,
        Distinguished::Moderator,
        Distinguished::Admin,
        Distinguished::Special,
    ] {
        assert_eq!(Distinguished::decode(&value.encode()), Ok(value));
    }
}

const IS_MOD: &str = r#"{
    "approved": false,
    "approved_at_utc": null,
    "approved_by": null,
    "ban_note": "remove not spam",
    "banned_at_utc": 1725096693.0,
    "banned_by": "exampleUsername",
    "can_mod_post": true,
    "ignore_reports": false,
    "mod_note": null,
    "mod_reason_by": null,
    "mod_reason_title": null,
    "mod_reports": [],
    "num_reports": 0,
    "removal_reason": null,
    "removed": true,
    "removed_by": "exampleUsername",
    "removed_by_category": "moderator",
    "spam": false,
    "title": "An example",
    "user_reports": []
}"#;

const NOT_MOD: &str = r#"{
    "can_mod_post": false,
    "title": "An example",
    "num_reports": null
}"#;

fn example_moderation() -> SubmissionModerationData {
    SubmissionModerationData {
        approved: false,
        approved_at_utc: None,
        approved_by: None,
        ban_note: Some(String::from("remove not spam")),
        banned_at_utc: Some(number(1725096693.0)),
        banned_by: Some(String::from("exampleUsername")),
        ignore_reports: false,
        mod_note: None,
        mod_reason_by: None,
        mod_reason_title: None,
        mod_reports: Vec::new(),
        num_reports: 0,
        removal_reason: None,
        removed: true,
        removed_by: Some(String::from("exampleUsername")),
        removed_by_category: Some(String::from("moderator")),
        spam: false,
        user_reports: Vec::new(),
    }
}

#[test]
fn test_mod_data_de() {
    let mod_data = decode_moderation(&Json::parse(IS_MOD).unwrap()).unwrap();

    assert_eq!(mod_data, Some(example_moderation()))
}

#[test]
fn test_not_mod_data_de() {
    let mod_data = decode_moderation(&Json::parse(NOT_MOD).unwrap()).unwrap();

    assert_eq!(mod_data, None);
}

#[test]
fn moderation_absent_flag_and_bad_flag() {
    assert_eq!(decode_moderation(&Json::parse("{}").unwrap()), Ok(None));
    assert_eq!(
        decode_moderation(&Json::parse(r#"{"can_mod_post":"yes"}"#).unwrap()),
        Err(DecodeError)
    );
    assert_eq!(decode_moderation(&Json::parse("[]").unwrap()), Err(DecodeError));
    assert_eq!(
        decode_moderation(&Json::parse(r#"{"can_mod_post":true}"#).unwrap()),
        Err(DecodeError)
    );
}

#[test]
fn moderation_round_trips() {
    let mut data = example_moderation();
    data.mod_reports = vec![SubmissionModeratorReport::new("amod", "rule 1")];
    data.user_reports = vec![SubmissionUserReport {
        rule: String::from("A rule"),
        count: 5,
        unknown1: false,
        unknown2: true,
    }];
    data.approved_at_utc = Some(serde_json::Number::from(17u64));
    let written = encode_moderation(&Some(data));
    let text = written.to_text();
    assert!(text.starts_with(r#"{"can_mod_post":true,"approved":false,"approved_at_utc":17,"#));
    let read = decode_moderation(&Json::parse(&text).unwrap()).unwrap().unwrap();
    assert_eq!(encode_moderation(&Some(read)).to_text(), text);
    assert_eq!(encode_moderation(&None).to_text(), r#"{"can_mod_post":false}"#);
    assert_eq!(decode_moderation(&encode_moderation(&None)), Ok(None));
}

#[test]
fn test_user_reports_serde() {
    const DATA: &str = r#"["A rule",5,false,true]"#;

    let reports = SubmissionUserReport::decode(&Json::parse(DATA).unwrap()).unwrap();

    assert_eq!(reports.rule, "A rule");
    assert_eq!(reports.count, 5);
    assert_eq!(reports.unknown1, false);
    assert_eq!(reports.unknown2, true);

    let ser = reports.encode().to_text();

    assert_eq!(ser, DATA);
}

#[test]
fn user_report_rejects_wrong_shapes() {
    for text in [
        r#"["A rule",5,false]"#,
        r#"["A rule",5,false,true,1]"#,
        r#"["A rule",5.5,false,true]"#,
        r#"["A rule",2147483648,false,true]"#,
        r#"[1,5,false,true]"#,
        r#"["A rule",5,0,true]"#,
        r#"{"rule":"A rule"}"#,
    ] {
        assert_eq!(
            SubmissionUserReport::decode(&Json::parse(text).unwrap()),
            Err(DecodeError),
            "{}",
            text
        );
    }
    let least = SubmissionUserReport::decode(&Json::parse(r#"["r",-2147483648,true,false]"#).unwrap());
    assert_eq!(least.unwrap().count, i32::MIN);
}

#[test]
fn moderator_report_reads_both_fields() {
    let report =
        SubmissionModeratorReport::decode(&Json::parse(r#"["amod","spam"]"#).unwrap()).unwrap();
    assert_eq!(report.moderator(), "amod");
    assert_eq!(report.reason(), "spam");
    assert_eq!(report.encode().to_text(), r#"["amod","spam"]"#);
    assert!(SubmissionModeratorReport::decode(&Json::parse(r#"["amod"]"#).unwrap()).is_err());
}

fn comment_json(body: &str, replies: &str) -> String {
    format!(
        r#"{{"author":"someone","body":"{body}","body_html":"&lt;p&gt;hi&lt;/p&gt;","id":"c1","name":"t1_c1","parent_id":"t3_xyz","link_id":"t3_xyz","subreddit":"rust","subreddit_id":"t5_2s7lj","permalink":"/r/rust/comments/xyz/_/c1/","ups":3,"downs":0,"score":3,"created":1725096693.0,"created_utc":1725096693.0,"edited":false,"distinguished":null,"mod_reports":[],"user_reports":[],"locked":false,"stickied":false,"saved":false,"archived":false,"all_awardings":[],"author_is_blocked":false,"awarders":[],"can_gild":true,"can_mod_post":false,"collapsed":false,"controversiality":0,"gilded":0,"gildings":{{}},"is_submitter":false,"no_follow":true,"score_hidden":false,"send_replies":true,"subreddit_name_prefixed":"r/rust","subreddit_type":"public","total_awards_received":0,"treatment_tags":[],"depth":0,"replies":{replies}}}"#
    )
}

#[test]
fn comment_tree_decodes() {
    let text = format!(
        r#"[{{"kind":"Listing","data":{{"children":[{{"kind":"t3","data":{{}}}}]}}}},{{"kind":"Listing","data":{{"children":[{{"kind":"t1","data":{}}},{{"kind":"more","data":{{"id":"abc","name":"t1_abc","parent_id":"t3_xyz","count":3,"depth":1}}}}]}}}}]"#,
        comment_json("a &amp; b", "\"\"")
    );
    let response = ArticleCommentsResponse::decode(&Json::parse(&text).unwrap()).unwrap();
    let children = &response.comments.data.children;
    assert_eq!(children.len(), 2);
    match &children[0] {
        ArticleCommentOrMoreComments::Comment(comment) => {
            assert_eq!(comment.replies, ArticleReplies::Empty);
            assert_eq!(comment.depth, 0);
            assert_eq!(comment.common.body, "a & b");
            assert_eq!(comment.common.body_html, "&lt;p&gt;hi&lt;/p&gt;");
            assert_eq!(comment.common.edited, Edited::NotEdited);
            assert_eq!(comment.common.distinguished, Distinguished::NotDistinguished);
            assert_eq!(comment.common.name.full(), "t1_c1");
            assert_eq!(comment.common.created_utc, number(1725096693.0));
            assert_eq!(comment.common.removed, None);
        }
        other => panic!("expected a comment, got {:?}", other),
    }
    assert_eq!(
        children[1],
        ArticleCommentOrMoreComments::More(MoreCommentData {
            id: String::from("abc"),
            name: ThingFullname::try_from("t1_abc").unwrap(),
            parent_id: ThingFullname::try_from("t3_xyz").unwrap(),
            count: 3,
            depth: 1,
        })
    );
}

#[test]
fn nested_replies_decode_and_bad_children_fail() {
    let inner = comment_json("inner", "\"\"");
    let replies = format!(
        r#"{{"kind":"Listing","data":{{"children":[{{"kind":"t1","data":{inner}}}]}}}}"#
    );
    let outer = comment_json("outer", &replies);
    let child = format!(r#"{{"kind":"t1","data":{outer}}}"#);
    let decoded = ArticleCommentOrMoreComments::decode(&Json::parse(&child).unwrap()).unwrap();
    match &decoded {
        ArticleCommentOrMoreComments::Comment(comment) => match &comment.replies {
            ArticleReplies::Replies(thing) => assert_eq!(thing.data.children.len(), 1),
            other => panic!("expected replies, got {:?}", other),
        },
        other => panic!("expected a comment, got {:?}", other),
    }
    let again = ArticleCommentOrMoreComments::decode(&decoded.encode()).unwrap();
    assert_eq!(again, decoded);
    let unknown = format!(r#"{{"kind":"t9","data":{outer}}}"#);
    assert!(ArticleCommentOrMoreComments::decode(&Json::parse(&unknown).unwrap()).is_err());
    let broken = comment_json("x", r#"{"kind":"Listing","data":{"children":[{"kind":"more","data":{}}]}}"#);
    let wrapped = format!(r#"{{"kind":"t1","data":{broken}}}"#);
    assert!(ArticleCommentOrMoreComments::decode(&Json::parse(&wrapped).unwrap()).is_err());
    assert!(ArticleCommentsResponse::decode(&Json::parse("[1]").unwrap()).is_err());
    assert!(ArticleCommentsResponse::decode(&Json::parse(r#"[1,""]"#).unwrap()).is_err());
}

#[test]
fn json_text_round_trips_and_keeps_member_order() {
    let text = r#"{"b":1,"a":[true,null,"x",-2,1.5],"c":{"z":"y"}}"#;
    let doc = Json::parse(text).unwrap();
    assert_eq!(doc.to_text(), text);
    assert_eq!(doc.get("a").unwrap().as_array().unwrap().len(), 5);
    assert_eq!(doc.get("b").unwrap().as_int(), Some(1));
    assert_eq!(doc.get("a").unwrap().as_array().unwrap()[3].as_int(), Some(-2));
    assert_eq!(doc.get("a").unwrap().as_array().unwrap()[4].as_int(), None);
    assert_eq!(doc.get("missing"), None);
    assert!(Json::parse("{").is_err());
    assert!(Json::parse("1 2").is_err());
    assert_eq!(Json::Str(String::from("a\"b")).to_text(), r#""a\"b""#);
}
