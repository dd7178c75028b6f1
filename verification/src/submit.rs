//! What a new submission is made of, and how it is sent.

use crate::form::FormBuilder;
use crate::json::{lemma_object_view, Json, JsonValue, Member, MemberValue};
use vstd::prelude::*;
use vstd::string::StringExecFns;

verus! {

/// The model of one field of a request: a key with a text or with a truth
/// value.
pub enum FieldModel {
    /// A text.
    Text(Seq<char>, Seq<char>),
    /// A truth value.
    Flag(Seq<char>, bool),
}

/// The value of a field.
#[derive(Debug, PartialEq, Eq)]
pub enum FieldValue {
    /// A text.
    Text(String),
    /// A truth value.
    Flag(bool),
}

/// One field of a request.
#[derive(Debug, PartialEq, Eq)]
pub struct Field {
    /// The key.
    pub key: String,
    /// The value.
    pub value: FieldValue,
}

impl View for Field {
    type V = FieldModel;

    open spec fn view(&self) -> FieldModel {
        match self.value {
            FieldValue::Text(text) => FieldModel::Text(self.key@, text@),
            FieldValue::Flag(flag) => FieldModel::Flag(self.key@, flag),
        }
    }
}

/// The models of a list of fields.
pub open spec fn fields_view(fields: Seq<Field>) -> Seq<FieldModel> {
    fields.map_values(|f: Field| f@)
}

/// The member of a JSON object that stands for a field.
pub open spec fn field_member(field: FieldModel) -> MemberValue {
    match field {
        FieldModel::Text(key, text) => MemberValue { key, value: JsonValue::Str(text) },
        FieldModel::Flag(key, flag) => MemberValue { key, value: JsonValue::Bool(flag) },
    }
}

/// The pair of a form that stands for a field: a truth value is written
/// as `true` or `false`.
pub open spec fn field_pair(field: FieldModel) -> (Seq<char>, Seq<char>) {
    match field {
        FieldModel::Text(key, text) => (key, text),
        FieldModel::Flag(key, flag) => (
            key,
            if flag {
                "true"@
            } else {
                "false"@
            },
        ),
    }
}

/// A field with a text, where there is a text.
pub open spec fn optional_text(key: Seq<char>, text: Option<String>) -> Seq<FieldModel> {
    match text {
        Some(text) => seq![FieldModel::Text(key, text@)],
        None => Seq::empty(),
    }
}

/// A field that is set, where the flag is set.
pub open spec fn optional_flag(key: Seq<char>, flag: bool) -> Seq<FieldModel> {
    if flag {
        seq![FieldModel::Flag(key, true)]
    } else {
        Seq::empty()
    }
}

/// The kind of a submission: self text, rich text or a link.
#[derive(Debug, PartialEq, Eq)]
pub enum SubmissionSubmitKind {
    /// A text post.
    SelfText {
        /// The text, in Markdown.
        text: String,
    },
    /// A rich text post.
    RichText {
        /// The text, as JSON.
        rich_text: String,
    },
    /// A link post.
    Link {
        /// The URL of the link.
        url: String,
        /// Whether the link is posted although it was posted before.
        resubmit: bool,
    },
}

impl SubmissionSubmitKind {
    /// The fields that stand for the kind: a text post is `kind=self`
    /// with its `text`, a rich text post `kind=self` with its
    /// `richtext_json`, and a link post `kind=link` with its `url`, after
    /// `resubmit=true` where that is asked for.
    pub open spec fn fields_model(&self) -> Seq<FieldModel> {
        match self {
            SubmissionSubmitKind::SelfText { text } => seq![
                FieldModel::Text("kind"@, "self"@),
                FieldModel::Text("text"@, text@),
            ],
            SubmissionSubmitKind::RichText { rich_text } => seq![
                FieldModel::Text("kind"@, "self"@),
                FieldModel::Text("richtext_json"@, rich_text@),
            ],
            SubmissionSubmitKind::Link { url, resubmit } => optional_flag("resubmit"@, *resubmit)
                + seq![FieldModel::Text("kind"@, "link"@), FieldModel::Text("url"@, url@)],
        }
    }

    /// Appends the fields that stand for the kind.
    pub fn push_fields(&self, fields: &mut Vec<Field>)
        ensures
            fields_view(final(fields)@) == fields_view(old(fields)@) + self.fields_model(),
    {
        let ghost before = fields_view(fields@);
        match self {
            SubmissionSubmitKind::SelfText { text } => {
                push_text(fields, "kind", "self");
                push_text(fields, "text", text.as_str());
            },
            SubmissionSubmitKind::RichText { rich_text } => {
                push_text(fields, "kind", "self");
                push_text(fields, "richtext_json", rich_text.as_str());
            },
            SubmissionSubmitKind::Link { url, resubmit } => {
                push_flag_if_set(fields, "resubmit", *resubmit);
                push_text(fields, "kind", "link");
                push_text(fields, "url", url.as_str());
            },
        }
        proof {
            assert(fields_view(fields@) =~= before + self.fields_model());
        }
    }
}

/// Appends a field with a text.
pub fn push_text(fields: &mut Vec<Field>, key: &str, text: &str)
    ensures
        fields_view(final(fields)@) == fields_view(old(fields)@).push(
            FieldModel::Text(key@, text@),
        ),
{
    fields.push(Field { key: key.to_owned(), value: FieldValue::Text(text.to_owned()) });
    proof {
        assert(fields_view(fields@) =~= fields_view(old(fields)@).push(
            FieldModel::Text(key@, text@),
        ));
    }
}

/// Appends a field with a truth value.
pub fn push_flag(fields: &mut Vec<Field>, key: &str, flag: bool)
    ensures
        fields_view(final(fields)@) == fields_view(old(fields)@).push(
            FieldModel::Flag(key@, flag),
        ),
{
    fields.push(Field { key: key.to_owned(), value: FieldValue::Flag(flag) });
    proof {
        assert(fields_view(fields@) =~= fields_view(old(fields)@).push(
            FieldModel::Flag(key@, flag),
        ));
    }
}

/// Appends a field that is set, where the flag is set.
pub fn push_flag_if_set(fields: &mut Vec<Field>, key: &str, flag: bool)
    ensures
        fields_view(final(fields)@) == fields_view(old(fields)@) + optional_flag(key@, flag),
{
    if flag {
        push_flag(fields, key, true);
    }
    proof {
        assert(fields_view(fields@) =~= fields_view(old(fields)@) + optional_flag(key@, flag));
    }
}

/// Appends a field with a text, where there is a text.
pub fn push_text_if_some(fields: &mut Vec<Field>, key: &str, text: &Option<String>)
    ensures
        fields_view(final(fields)@) == fields_view(old(fields)@) + optional_text(key@, *text),
{
    match text {
        Some(text) => {
            push_text(fields, key, text.as_str());
        },
        None => {},
    }
    proof {
        assert(fields_view(fields@) =~= fields_view(old(fields)@) + optional_text(key@, *text));
    }
}

/// What is gathered to make a submission.
#[derive(Debug, PartialEq, Eq)]
pub struct SubmissionSubmitBuilder {
    /// The title.
    pub title: String,
    /// Whether replies are sent to the inbox.
    pub send_replies: bool,
    /// Whether the post is marked as not safe for work.
    pub nsfw: bool,
    /// Whether the post is marked as a spoiler.
    pub spoiler: bool,
    /// The id of the flair.
    pub flair_id: Option<String>,
    /// The text of the flair.
    pub flair_text: Option<String>,
    /// The id of the collection.
    pub collection_id: Option<String>,
    /// The type of discussion.
    pub discussion_type: Option<String>,
    /// The id of the draft.
    pub draft_id: Option<String>,
    /// The kind of the submission.
    pub kind: SubmissionSubmitKind,
    /// Whether the site checks the submission before it accepts it.
    pub validate_on_submit: bool,
}

impl SubmissionSubmitBuilder {
    /// The fields of the submission, in the order in which they are sent:
    /// the title and whether replies are sent, then each flag that is set
    /// and each text that is there, then the fields of the kind.
    pub open spec fn fields_model(&self) -> Seq<FieldModel> {
        seq![
            FieldModel::Text("title"@, self.title@),
            FieldModel::Flag("sendreplies"@, self.send_replies),
        ] + optional_flag("nsfw"@, self.nsfw) + optional_flag("spoiler"@, self.spoiler)
            + optional_text("flair_id"@, self.flair_id) + optional_text(
            "flair_text"@,
            self.flair_text,
        ) + optional_text("collection_id"@, self.collection_id) + optional_text(
            "discussion_type"@,
            self.discussion_type,
        ) + optional_text("draft_id"@, self.draft_id) + optional_flag(
            "validate_on_submit"@,
            self.validate_on_submit,
        ) + self.kind.fields_model()
    }

    /// A builder with this title and kind: replies are sent, no flag is
    /// set and no flair is chosen.
    pub fn new(title: &str, kind: SubmissionSubmitKind) -> (r: Self)
        ensures
            r.title@ == title@,
            r.kind == kind,
            r.send_replies,
            !r.nsfw,
            !r.spoiler,
            r.flair_id is None,
            r.flair_text is None,
            r.collection_id is None,
            r.discussion_type is None,
            r.draft_id is None,
            !r.validate_on_submit,
    {
        SubmissionSubmitBuilder {
            title: title.to_owned(),
            kind,
            send_replies: true,
            nsfw: false,
            spoiler: false,
            flair_id: None,
            flair_text: None,
            collection_id: None,
            discussion_type: None,
            draft_id: None,
            validate_on_submit: false,
        }
    }

    /// A builder for a self text post.
    pub fn text(title: &str, body: &str) -> (r: Self)
        ensures
            r.title@ == title@,
            r.kind matches SubmissionSubmitKind::SelfText { text } && text@ == body@,
            r.send_replies && !r.nsfw && !r.spoiler && !r.validate_on_submit,
            r.flair_id is None && r.flair_text is None && r.collection_id is None
                && r.discussion_type is None && r.draft_id is None,
    {
        Self::new(title, SubmissionSubmitKind::SelfText { text: body.to_owned() })
    }

    /// A builder for a link post. With `resubmit` the post is made even if
    /// the subreddit has other posts for the URL.
    pub fn link(title: &str, url: &str, resubmit: bool) -> (r: Self)
        ensures
            r.title@ == title@,
            r.kind matches SubmissionSubmitKind::Link { url: u, resubmit: again } && u@ == url@
                && again == resubmit,
            r.send_replies && !r.nsfw && !r.spoiler && !r.validate_on_submit,
            r.flair_id is None && r.flair_text is None && r.collection_id is None
                && r.discussion_type is None && r.draft_id is None,
    {
        Self::new(title, SubmissionSubmitKind::Link { resubmit, url: url.to_owned() })
    }

    /// A builder for a rich text post, whose text is JSON.
    pub fn rich_text_json(title: &str, json: &str) -> (r: Self)
        ensures
            r.title@ == title@,
            r.kind matches SubmissionSubmitKind::RichText { rich_text } && rich_text@ == json@,
            r.send_replies && !r.nsfw && !r.spoiler && !r.validate_on_submit,
            r.flair_id is None && r.flair_text is None && r.collection_id is None
                && r.discussion_type is None && r.draft_id is None,
    {
        Self::new(title, SubmissionSubmitKind::RichText { rich_text: json.to_owned() })
    }

    /// The builder with this choice of whether replies are sent to the
    /// inbox.
    pub fn with_send_replies(self, send_replies: bool) -> (r: Self)
        ensures
            r == (SubmissionSubmitBuilder { send_replies, ..self }),
    {
        let mut builder = self;
        builder.send_replies = send_replies;
        builder
    }

    /// The builder with this choice of whether the post is marked as not
    /// safe for work.
    pub fn with_nsfw(self, nsfw: bool) -> (r: Self)
        ensures
            r == (SubmissionSubmitBuilder { nsfw, ..self }),
    {
        let mut builder = self;
        builder.nsfw = nsfw;
        builder
    }

    /// The builder with this choice of whether the post is marked as a
    /// spoiler.
    pub fn with_spoiler(self, spoiler: bool) -> (r: Self)
        ensures
            r == (SubmissionSubmitBuilder { spoiler, ..self }),
    {
        let mut builder = self;
        builder.spoiler = spoiler;
        builder
    }

    /// The builder with this flair.
    pub fn with_flair(self, flair_id: &str, flair_text: &str) -> (r: Self)
        ensures
            r.flair_id matches Some(id) && id@ == flair_id@,
            r.flair_text matches Some(text) && text@ == flair_text@,
            r.title == self.title && r.kind == self.kind && r.send_replies == self.send_replies
                && r.nsfw == self.nsfw && r.spoiler == self.spoiler,
            r.collection_id == self.collection_id && r.discussion_type == self.discussion_type
                && r.draft_id == self.draft_id && r.validate_on_submit == self.validate_on_submit,
    {
        let mut builder = self;
        builder.flair_id = Some(flair_id.to_owned());
        builder.flair_text = Some(flair_text.to_owned());
        builder
    }

    /// The fields of the submission.
    pub fn fields(&self) -> (r: Vec<Field>)
        ensures
            fields_view(r@) == self.fields_model(),
    {
        let mut fields: Vec<Field> = Vec::new();
        proof {
            assert(fields_view(fields@) =~= Seq::<FieldModel>::empty());
        }
        push_text(&mut fields, "title", self.title.as_str());
        push_flag(&mut fields, "sendreplies", self.send_replies);
        proof {
            assert(fields_view(fields@) =~= seq![
                FieldModel::Text("title"@, self.title@),
                FieldModel::Flag("sendreplies"@, self.send_replies),
            ]);
        }
        push_flag_if_set(&mut fields, "nsfw", self.nsfw);
        push_flag_if_set(&mut fields, "spoiler", self.spoiler);
        push_text_if_some(&mut fields, "flair_id", &self.flair_id);
        push_text_if_some(&mut fields, "flair_text", &self.flair_text);
        push_text_if_some(&mut fields, "collection_id", &self.collection_id);
        push_text_if_some(&mut fields, "discussion_type", &self.discussion_type);
        push_text_if_some(&mut fields, "draft_id", &self.draft_id);
        push_flag_if_set(&mut fields, "validate_on_submit", self.validate_on_submit);
        self.kind.push_fields(&mut fields);
        fields
    }

    /// The submission as a JSON object: one member for each field, in
    /// order.
    pub fn to_json(&self) -> (j: Json)
        ensures
            j@ == JsonValue::Object(self.fields_model().map_values(|f: FieldModel| field_member(f))),
    {
        let fields = self.fields();
        let mut members: Vec<Member> = Vec::new();
        let mut i: usize = 0;
        while i < fields.len()
            invariant
                i <= fields.len(),
                members@.len() == i,
                forall|k: int|
                    0 <= k < i ==> (MemberValue {
                        key: (#[trigger] members@[k]).key@,
                        value: members@[k].value@,
                    }) == field_member(fields@[k]@),
            decreases fields.len() - i,
        {
            let value = match &fields[i].value {
                FieldValue::Text(text) => Json::Str(text.clone()),
                FieldValue::Flag(flag) => Json::Bool(*flag),
            };
            members.push(Member { key: fields[i].key.clone(), value });
            i = i + 1;
        }
        let j = Json::Object(members);
        proof {
            lemma_object_view(j);
            assert(j@->Object_0 =~= self.fields_model().map_values(
                |f: FieldModel| field_member(f),
            ));
        }
        j
    }

    /// The form that submits to a subreddit: `sr` with the display name of
    /// the subreddit, one pair for each field, and `api_type=json`.
    pub fn form(&self, subreddit_name: &str) -> (form: FormBuilder)
        ensures
            form@ == seq![("sr"@, subreddit_name@)] + self.fields_model().map_values(
                |f: FieldModel| field_pair(f),
            ) + seq![("api_type"@, "json"@)],
    {
        let fields = self.fields();
        let mut form = FormBuilder::empty().with("sr", subreddit_name);
        let mut i: usize = 0;
        while i < fields.len()
            invariant
                i <= fields.len(),
                form@ == seq![("sr"@, subreddit_name@)] + fields_view(fields@).subrange(
                    0,
                    i as int,
                ).map_values(|f: FieldModel| field_pair(f)),
            decreases fields.len() - i,
        {
            let ghost before = form@;
            match &fields[i].value {
                FieldValue::Text(text) => {
                    form.add(fields[i].key.as_str(), text.as_str());
                },
                FieldValue::Flag(flag) => {
                    form.add(
                        fields[i].key.as_str(),
                        if *flag {
                            "true"
                        } else {
                            "false"
                        },
                    );
                },
            }
            proof {
                assert(form@ == before.push(field_pair(fields@[i as int]@)));
                assert(form@ =~= seq![("sr"@, subreddit_name@)] + fields_view(fields@).subrange(
                    0,
                    i + 1,
                ).map_values(|f: FieldModel| field_pair(f)));
            }
            i = i + 1;
        }
        proof {
            assert(fields_view(fields@).subrange(0, fields@.len() as int) =~= fields_view(fields@));
        }
        form.add("api_type", "json");
        form
    }
}

} // verus!
