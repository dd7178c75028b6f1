use roux::fullname::{InvalidFullname, ThingFullname, ThingId};

#[test]
fn test_splitting() {
    let thing = ThingFullname::try_from("t1_abcdef").unwrap();

    assert_eq!(thing.kind(), "t1");
    assert_eq!(thing.id(), "abcdef");
}

#[test]
fn mod_test_url_parse() {
    assert_eq!(
        ThingFullname::from_submission_link(
            "https://www.reddit.com/r/somesubredditgoeshere/comments/1f155ot/with_a_title"
        ),
        Some(ThingFullname::from_submission_id("1f155ot"))
    );
    assert_eq!(
        ThingFullname::from_submission_link(
            "https://www.reddit.com/r/somesubredditgoeshere/comments/1f155ot/"
        ),
        Some(ThingFullname::from_submission_id("1f155ot"))
    );
    assert_eq!(
        ThingFullname::from_submission_link(
            "https://www.reddit.com/r/somesubredditgoeshere/comments/1f155ot"
        ),
        Some(ThingFullname::from_submission_id("1f155ot"))
    );
}

#[test]
fn test_url_parse() {
    assert_eq!(
        ThingId::from_submission_link(
            "https://www.reddit.com/r/somesubredditgoeshere/comments/1f155ot/with_a_title"
        ),
        Some(ThingId::try_from("t3_1f155ot").unwrap())
    );
    assert_eq!(
        ThingId::from_submission_link(
            "https://www.reddit.com/r/somesubredditgoeshere/comments/1f155ot/"
        ),
        Some(ThingId::try_from("t3_1f155ot").unwrap())
    );
    assert_eq!(
        ThingId::from_submission_link(
            "https://www.reddit.com/r/somesubredditgoeshere/comments/1f155ot"
        ),
        Some(ThingId::try_from("t3_1f155ot").unwrap())
    );
}

#[test]
fn fullname_accepts_and_rejects() {
    for kind in ["t1", "t2", "t3", "t4", "t5", "t6", "t8"] {
        let text = format!("{kind}_1e5leyy");
        let name = ThingFullname::try_from(&text).unwrap();
        assert_eq!(name.kind(), kind);
        assert_eq!(name.kind().len(), 2);
        assert_eq!(name.id(), "1e5leyy");
        assert_eq!(format!("{}_{}", name.kind(), name.id()), name.full());
        assert_eq!(name.split(), (kind, "1e5leyy"));
        assert_eq!(name.clone().into_inner(), text);
        assert_eq!(ThingId::try_from(&text).unwrap().split(), (kind, "1e5leyy"));
    }
    for text in ["", "t1", "t1abc", "_abc", "t_abc", "t12_abc", "x1_abc", "T1_abc", "a_t1_b"] {
        assert_eq!(ThingFullname::try_from(text), Err(InvalidFullname), "{}", text);
        assert_eq!(ThingFullname::validate(text), Err(InvalidFullname));
        assert_eq!(ThingId::try_from(text), Err(InvalidFullname));
        assert_eq!(
            ThingFullname::try_from_string(text.to_string()),
            Err(text.to_string())
        );
    }
    assert_eq!(ThingFullname::try_from("t1_").unwrap().id(), "");
    assert_eq!(ThingFullname::try_from("t1_a_b").unwrap().id(), "a_b");
    assert_eq!(ThingFullname::from_comment_id("abc").full(), "t1_abc");
    assert_eq!(ThingFullname::from_submission_id("abc").full(), "t3_abc");
}

#[test]
fn links_without_enough_segments() {
    for url in [
        "https://www.reddit.com/",
        "https://www.reddit.com/r/rust",
        "https://www.reddit.com/r/rust/comments",
        "reddit.com/user/x/comments/abc",
    ] {
        assert_eq!(ThingFullname::from_submission_link(url), None, "{}", url);
        assert_eq!(ThingId::from_submission_link(url), None, "{}", url);
    }
    assert_eq!(
        ThingFullname::from_submission_link("/r/x/comments/").unwrap().full(),
        "t3_"
    );
    assert_eq!(
        ThingFullname::from_submission_link("https://www.reddit.com/r/x/comments/1f155ot/with_a_title")
            .unwrap()
            .full(),
        "t3_1f155ot"
    );
}

#[test]
fn fullnames_count_characters_not_bytes() {
    let name = ThingFullname::try_from("tß_äö").unwrap();
    assert_eq!(name.kind(), "tß");
    assert_eq!(name.id(), "äö");
    assert_eq!(name.kind().chars().count(), 2);
    assert_eq!(ThingFullname::try_from("ß1_a"), Err(InvalidFullname));
    assert_eq!(
        ThingFullname::from_submission_link("https://reddit.com/r/ü/comments/äb/t").unwrap().id(),
        "äb"
    );
}
