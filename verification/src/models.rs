//! Things together with the client that fetched them, so that what is done
//! with a thing goes through the same client.

use crate::api::comment::{ArticleCommentData, ArticleCommentOrMoreComments, ArticleReplies,
    MoreCommentData};
use crate::api::response::{BasicListing, BasicThing};
use crate::api::submission::{MediaMetadataMap, SubmissionData, SubmissionDataGalleryData,
    SubmissionDataPreview};
use crate::api::moderation::SubmissionModerationData;
use crate::api::distinguished::Distinguished;
use crate::api::things::{FlairId, CreatedCommentData, CreatedCommentWithLinkInfoData, InboxData,
    LatestCommentData, LiveThreadData, ModActionType, SavedData};
use crate::config::Config;
use crate::decode::{decode_items, items_agree, items_decode, Decode, DecodeError};
use crate::endpoint::{build_subreddit, EndpointBuilder};
use crate::fullname::ThingFullname;
use crate::json::{Json, JsonValue};
use vstd::prelude::*;
use vstd::string::StringExecFns;

verus! {

/// A thing that is made of a client and the data of the thing.
pub trait FromClientAndData<Client, Data>: Sized {
    /// The thing made of a client and data.
    spec fn made(client: Client, data: Data) -> Self;

    /// Makes the thing.
    fn new(client: Client, data: Data) -> (r: Self)
        ensures
            r == Self::made(client, data),
    ;
}

/// A page of things.
#[derive(Debug, PartialEq)]
pub struct Listing<T> {
    /// The fullname of the thing before this page.
    pub before: Option<ThingFullname>,
    /// The fullname of the thing after this page.
    pub after: Option<ThingFullname>,
    /// The things of this page.
    pub children: Vec<T>,
    /// How many things there were.
    pub dist: Option<i32>,
    /// The modhash.
    pub modhash: Option<String>,
}

/// Whether a thing is made of data and some clone of a client.
pub open spec fn made_with_clone<TModel, TApi, TClient>(
    client: TClient,
    data: TApi,
    model: TModel,
) -> bool where TModel: FromClientAndData<TClient, TApi>, TClient: Clone {
    exists|c: TClient| cloned(client, c) && model == TModel::made(c, data)
}

fn reversed<T>(items: Vec<T>) -> (r: Vec<T>)
    ensures
        r@ == items@.reverse(),
{
    let mut rest = items;
    let mut out: Vec<T> = Vec::new();
    while rest.len() > 0
        invariant
            rest@.len() + out@.len() == items@.len(),
            rest@ == items@.subrange(0, rest@.len() as int),
            forall|k: int| 0 <= k < out@.len() ==> out@[k] == items@[items@.len() - 1 - k],
        decreases rest.len(),
    {
        let last = rest.pop().unwrap();
        out.push(last);
    }
    proof {
        assert(out@ =~= items@.reverse());
    }
    out
}

impl<TModel> Listing<TModel> {
    /// The page whose children are the data of the children of a listing,
    /// each converted, in order; the cursors, the count and the modhash are
    /// those of the listing.
    pub fn new_converter<TApi, F: Fn(TApi) -> TModel>(
        listing: BasicListing<TApi>,
        convertor: F,
    ) -> (r: Self)
        requires
            forall|data: TApi| convertor.requires((data,)),
        ensures
            r.before == listing.data.before,
            r.after == listing.data.after,
            r.dist == listing.data.dist,
            r.modhash == listing.data.modhash,
            r.children@.len() == listing.data.children@.len(),
            forall|i: int|
                0 <= i < r.children@.len() ==> convertor.ensures(
                    (listing.data.children@[i].data,),
                    #[trigger] r.children@[i],
                ),
    {
        let BasicThing { kind: _, data } = listing;
        let crate::api::response::Listing { modhash, dist, after, before, children } = data;
        let ghost things = children@;
        let mut rest = reversed(children);
        let mut converted: Vec<TModel> = Vec::new();
        while rest.len() > 0
            invariant
                rest@.len() + converted@.len() == things.len(),
                forall|k: int| 0 <= k < rest@.len() ==> rest@[k] == things[things.len() - 1 - k],
                forall|data: TApi| convertor.requires((data,)),
                forall|k: int|
                    0 <= k < converted@.len() ==> convertor.ensures(
                        (things[k].data,),
                        #[trigger] converted@[k],
                    ),
            decreases rest.len(),
        {
            let thing = rest.pop().unwrap();
            let model = convertor(thing.data);
            converted.push(model);
        }
        Listing { before, after, children: converted, dist, modhash }
    }

    /// The page whose children are made of the data of the children of a
    /// listing, each together with a clone of the client.
    pub fn new<TApi, TClient: Clone>(listing: BasicListing<TApi>, client: TClient) -> (r: Self)
        where TModel: FromClientAndData<TClient, TApi>
        ensures
            r.before == listing.data.before,
            r.after == listing.data.after,
            r.dist == listing.data.dist,
            r.modhash == listing.data.modhash,
            r.children@.len() == listing.data.children@.len(),
            forall|i: int|
                0 <= i < r.children@.len() ==> made_with_clone(
                    client,
                    listing.data.children@[i].data,
                    #[trigger] r.children@[i],
                ),
    {
        let BasicThing { kind: _, data } = listing;
        let crate::api::response::Listing { modhash, dist, after, before, children } = data;
        let ghost things = children@;
        let mut rest = reversed(children);
        let mut converted: Vec<TModel> = Vec::new();
        while rest.len() > 0
            invariant
                rest@.len() + converted@.len() == things.len(),
                forall|k: int| 0 <= k < rest@.len() ==> rest@[k] == things[things.len() - 1 - k],
                forall|k: int|
                    0 <= k < converted@.len() ==> made_with_clone(
                        client,
                        things[k].data,
                        #[trigger] converted@[k],
                    ),
            decreases rest.len(),
        {
            let thing = rest.pop().unwrap();
            let handle = client.clone();
            let ghost data = thing.data;
            let model = TModel::new(handle, thing.data);
            proof {
                assert(cloned(client, handle) && model == TModel::made(handle, data));
                assert(made_with_clone(client, data, model));
            }
            converted.push(model);
        }
        Listing { before, after, children: converted, dist, modhash }
    }

    /// The things of the page.
    pub fn into_children(self) -> (r: Vec<TModel>)
        ensures
            r == self.children,
    {
        self.children
    }
}

/// A submission, with the client that fetched it.
#[derive(Debug, PartialEq)]
pub struct Submission<T> {
    pub client: T,
    pub data: SubmissionData,
}

impl<T> FromClientAndData<T, SubmissionData> for Submission<T> {
    open spec fn made(client: T, data: SubmissionData) -> Self {
        Submission { client, data }
    }

    fn new(client: T, data: SubmissionData) -> (r: Self) {
        Submission { client, data }
    }
}

impl<T> Submission<T> {
    /// The domain of the link.
    pub fn domain(&self) -> (r: &Option<String>)
        ensures
            *r == self.data.domain,
    {
        &self.data.domain
    }

    /// How the viewer voted.
    pub fn likes(&self) -> (r: Option<bool>)
        ensures
            r == self.data.likes,
    {
        self.data.likes
    }

    /// The order that is suggested for the comments.
    pub fn suggested_sort(&self) -> (r: &Option<String>)
        ensures
            *r == self.data.suggested_sort,
    {
        &self.data.suggested_sort
    }

    /// The text of the flair of the submission.
    pub fn link_flair_text(&self) -> (r: &Option<String>)
        ensures
            *r == self.data.link_flair_text,
    {
        &self.data.link_flair_text
    }

    /// The id of the template of the flair of the submission.
    pub fn link_flair_template_id(&self) -> (r: &Option<FlairId>)
        ensures
            *r == self.data.link_flair_template_id,
    {
        &self.data.link_flair_template_id
    }

    /// How often the submission was gilded.
    pub fn gilded(&self) -> (r: u64)
        ensures
            r == self.data.gilded,
    {
        self.data.gilded
    }

    /// Whether the viewer has followed the link.
    pub fn clicked(&self) -> (r: bool)
        ensures
            r == self.data.clicked,
    {
        self.data.clicked
    }

    /// Whether the viewer has hidden the submission.
    pub fn hidden(&self) -> (r: bool)
        ensures
            r == self.data.hidden,
    {
        self.data.hidden
    }

    /// The number of comments.
    pub fn num_comments(&self) -> (r: u64)
        ensures
            r == self.data.num_comments,
    {
        self.data.num_comments
    }

    /// Whether the score is hidden.
    pub fn hide_score(&self) -> (r: bool)
        ensures
            r == self.data.hide_score,
    {
        self.data.hide_score
    }

    /// Whether, and when, the submission was edited, as the API sends it.
    pub fn edited(&self) -> (r: &Json)
        ensures
            *r == self.data.edited,
    {
        &self.data.edited
    }

    /// The CSS class of the flair of the submission.
    pub fn link_flair_css_class(&self) -> (r: &Option<String>)
        ensures
            *r == self.data.link_flair_css_class,
    {
        &self.data.link_flair_css_class
    }

    /// The CSS class of the flair of the author.
    pub fn author_flair_css_class(&self) -> (r: &Option<String>)
        ensures
            *r == self.data.author_flair_css_class,
    {
        &self.data.author_flair_css_class
    }

    /// The id of the template of the flair of the author.
    pub fn author_flair_template_id(&self) -> (r: &Option<FlairId>)
        ensures
            *r == self.data.author_flair_template_id,
    {
        &self.data.author_flair_template_id
    }

    /// Whether the viewer has saved the submission.
    pub fn saved(&self) -> (r: bool)
        ensures
            r == self.data.saved,
    {
        self.data.saved
    }

    /// The text of the flair of the author.
    pub fn author_flair_text(&self) -> (r: &Option<String>)
        ensures
            *r == self.data.author_flair_text,
    {
        &self.data.author_flair_text
    }

    /// Whether the subreddit is quarantined.
    pub fn quarantine(&self) -> (r: bool)
        ensures
            r == self.data.quarantine,
    {
        self.data.quarantine
    }

    /// How the submission is distinguished.
    pub fn distinguished(&self) -> (r: Distinguished)
        ensures
            r == self.data.distinguished,
    {
        self.data.distinguished
    }

    /// Whether the viewer has visited the link.
    pub fn visited(&self) -> (r: bool)
        ensures
            r == self.data.visited,
    {
        self.data.visited
    }

    /// The name of the subreddit, without `/r/`.
    pub fn subreddit(&self) -> (r: &str)
        ensures
            r@ == self.data.subreddit@,
    {
        self.data.subreddit.as_str()
    }

    /// The text of a self post as HTML.
    pub fn selftext_html(&self) -> (r: &Option<String>)
        ensures
            *r == self.data.selftext_html,
    {
        &self.data.selftext_html
    }

    /// The text of a self post, in Markdown.
    pub fn selftext(&self) -> (r: &str)
        ensures
            r@ == self.data.selftext@,
    {
        self.data.selftext.as_str()
    }

    /// The id, in base 36.
    pub fn id(&self) -> (r: &str)
        ensures
            r@ == self.data.id@,
    {
        self.data.id.as_str()
    }

    /// Whether the submission is archived.
    pub fn archived(&self) -> (r: bool)
        ensures
            r == self.data.archived,
    {
        self.data.archived
    }

    /// The name of the author.
    pub fn author(&self) -> (r: &str)
        ensures
            r@ == self.data.author@,
    {
        self.data.author.as_str()
    }

    /// The score.
    pub fn score(&self) -> (r: &serde_json::Number)
        ensures
            *r == self.data.score,
    {
        &self.data.score
    }

    /// Whether the submission is marked as not safe for work.
    pub fn over_18(&self) -> (r: bool)
        ensures
            r == self.data.over_18,
    {
        self.data.over_18
    }

    /// Whether the submission is marked as a spoiler.
    pub fn spoiler(&self) -> (r: bool)
        ensures
            r == self.data.spoiler,
    {
        self.data.spoiler
    }

    /// The preview.
    pub fn preview(&self) -> (r: &Option<SubmissionDataPreview>)
        ensures
            *r == self.data.preview,
    {
        &self.data.preview
    }

    /// The URL of the thumbnail.
    pub fn thumbnail(&self) -> (r: &str)
        ensures
            r@ == self.data.thumbnail@,
    {
        self.data.thumbnail.as_str()
    }

    /// The fullname of the subreddit.
    pub fn subreddit_id(&self) -> (r: &ThingFullname)
        ensures
            *r == self.data.subreddit_id,
    {
        &self.data.subreddit_id
    }

    /// The downvotes.
    pub fn downs(&self) -> (r: &serde_json::Number)
        ensures
            *r == self.data.downs,
    {
        &self.data.downs
    }

    /// The upvotes.
    pub fn ups(&self) -> (r: &serde_json::Number)
        ensures
            *r == self.data.ups,
    {
        &self.data.ups
    }

    /// The share of upvotes among the votes.
    pub fn upvote_ratio(&self) -> (r: &serde_json::Number)
        ensures
            *r == self.data.upvote_ratio,
    {
        &self.data.upvote_ratio
    }

    /// Whether the submission is stickied.
    pub fn stickied(&self) -> (r: bool)
        ensures
            r == self.data.stickied,
    {
        self.data.stickied
    }

    /// Whether this is a self post.
    pub fn is_self(&self) -> (r: bool)
        ensures
            r == self.data.is_self,
    {
        self.data.is_self
    }

    /// Whether this is a gallery.
    pub fn is_gallery(&self) -> (r: bool)
        ensures
            r == self.data.is_gallery,
    {
        self.data.is_gallery
    }

    /// Whether this is a video.
    pub fn is_video(&self) -> (r: bool)
        ensures
            r == self.data.is_video,
    {
        self.data.is_video
    }

    /// The permanent path of the submission.
    pub fn permalink(&self) -> (r: &str)
        ensures
            r@ == self.data.permalink@,
    {
        self.data.permalink.as_str()
    }

    /// Whether the submission is locked.
    pub fn locked(&self) -> (r: bool)
        ensures
            r == self.data.locked,
    {
        self.data.locked
    }

    /// The fullname.
    pub fn name(&self) -> (r: &ThingFullname)
        ensures
            *r == self.data.name,
    {
        &self.data.name
    }

    /// When the submission was made, in local time.
    pub fn created(&self) -> (r: &serde_json::Number)
        ensures
            *r == self.data.created,
    {
        &self.data.created
    }

    /// The URL of a link post.
    pub fn url(&self) -> (r: &Option<String>)
        ensures
            *r == self.data.url,
    {
        &self.data.url
    }

    /// The title.
    pub fn title(&self) -> (r: &str)
        ensures
            r@ == self.data.title@,
    {
        self.data.title.as_str()
    }

    /// When the submission was made, in UTC.
    pub fn created_utc(&self) -> (r: &serde_json::Number)
        ensures
            *r == self.data.created_utc,
    {
        &self.data.created_utc
    }

    /// The gallery.
    pub fn gallery_data(&self) -> (r: &Option<SubmissionDataGalleryData>)
        ensures
            *r == self.data.gallery_data,
    {
        &self.data.gallery_data
    }

    /// The media of the gallery.
    pub fn media_metadata(&self) -> (r: &Option<MediaMetadataMap>)
        ensures
            *r == self.data.media_metadata,
    {
        &self.data.media_metadata
    }

    /// The moderation state, for a viewer who moderates.
    pub fn moderation(&self) -> (r: &Option<SubmissionModerationData>)
        ensures
            *r == self.data.moderation,
    {
        &self.data.moderation
    }
}

/// A comment of a listing, with the client that fetched it.
#[derive(Debug, PartialEq)]
pub struct LatestComment<T> {
    pub client: T,
    pub data: LatestCommentData,
}

impl<T> FromClientAndData<T, LatestCommentData> for LatestComment<T> {
    open spec fn made(client: T, data: LatestCommentData) -> Self {
        LatestComment { client, data }
    }

    fn new(client: T, data: LatestCommentData) -> (r: Self) {
        LatestComment { client, data }
    }
}

/// A comment under a submission, with the client that fetched it.
#[derive(Debug, PartialEq)]
pub struct ArticleComment<T> {
    pub client: T,
    pub data: ArticleCommentData,
}

impl<T> FromClientAndData<T, ArticleCommentData> for ArticleComment<T> {
    open spec fn made(client: T, data: ArticleCommentData) -> Self {
        ArticleComment { client, data }
    }

    fn new(client: T, data: ArticleCommentData) -> (r: Self) {
        ArticleComment { client, data }
    }
}

impl<T> ArticleComment<T> {
    /// The data of the comment.
    pub fn raw_data(&self) -> (r: &ArticleCommentData)
        ensures
            *r == self.data,
    {
        &self.data
    }

    /// How deep the comment stands below the submission.
    pub fn depth(&self) -> (r: i32)
        ensures
            r == self.data.depth,
    {
        self.data.depth
    }

    /// The replies to the comment.
    pub fn replies(&self) -> (r: &ArticleReplies)
        ensures
            *r == self.data.replies,
    {
        &self.data.replies
    }
}

/// A comment that the viewer made, with the client that made it.
#[derive(Debug, PartialEq)]
pub struct CreatedComment<T> {
    pub client: T,
    pub data: CreatedCommentData,
}

impl<T> FromClientAndData<T, CreatedCommentData> for CreatedComment<T> {
    open spec fn made(client: T, data: CreatedCommentData) -> Self {
        CreatedComment { client, data }
    }

    fn new(client: T, data: CreatedCommentData) -> (r: Self) {
        CreatedComment { client, data }
    }
}

/// A comment that the viewer made, with what a listing says of its
/// submission and the client that fetched it.
#[derive(Debug, PartialEq)]
pub struct CreatedCommentWithLinkInfo<T> {
    pub client: T,
    pub data: CreatedCommentWithLinkInfoData,
}

impl<T> FromClientAndData<T, CreatedCommentWithLinkInfoData> for CreatedCommentWithLinkInfo<T> {
    open spec fn made(client: T, data: CreatedCommentWithLinkInfoData) -> Self {
        CreatedCommentWithLinkInfo { client, data }
    }

    fn new(client: T, data: CreatedCommentWithLinkInfoData) -> (r: Self) {
        CreatedCommentWithLinkInfo { client, data }
    }
}

/// A comment, or a marker for comments not yet loaded.
#[derive(Debug, PartialEq)]
pub enum ArticleCommentOrMore<T> {
    /// The comment.
    Comment(ArticleComment<T>),
    /// The marker.
    More(MoreCommentData),
}

impl<T> FromClientAndData<T, ArticleCommentOrMoreComments> for ArticleCommentOrMore<T> {
    open spec fn made(client: T, data: ArticleCommentOrMoreComments) -> Self {
        match data {
            ArticleCommentOrMoreComments::Comment(data) => ArticleCommentOrMore::Comment(
                ArticleComment { client, data },
            ),
            ArticleCommentOrMoreComments::More(data) => ArticleCommentOrMore::More(data),
        }
    }

    fn new(client: T, data: ArticleCommentOrMoreComments) -> (r: Self) {
        match data {
            ArticleCommentOrMoreComments::Comment(data) => ArticleCommentOrMore::Comment(
                ArticleComment { client, data },
            ),
            ArticleCommentOrMoreComments::More(data) => ArticleCommentOrMore::More(data),
        }
    }
}

/// An item that the viewer saved, with the client that fetched it.
#[derive(Debug, PartialEq)]
pub enum Saved<T> {
    /// A submission.
    Submission(Submission<T>),
    /// A comment.
    Comment(LatestComment<T>),
}

impl<T> FromClientAndData<T, SavedData> for Saved<T> {
    open spec fn made(client: T, data: SavedData) -> Self {
        match data {
            SavedData::Comment(data) => Saved::Comment(LatestComment { client, data }),
            SavedData::Submission(data) => Saved::Submission(Submission { client, data }),
        }
    }

    fn new(client: T, data: SavedData) -> (r: Self) {
        match data {
            SavedData::Comment(data) => Saved::Comment(LatestComment { client, data }),
            SavedData::Submission(data) => Saved::Submission(Submission { client, data }),
        }
    }
}

/// A message of the inbox, with the client that fetched it.
#[derive(Debug, PartialEq)]
pub struct Message<T> {
    pub client: T,
    pub data: InboxData,
}

impl<T> FromClientAndData<T, InboxData> for Message<T> {
    open spec fn made(client: T, data: InboxData) -> Self {
        Message { client, data }
    }

    fn new(client: T, data: InboxData) -> (r: Self) {
        Message { client, data }
    }
}

impl<T> Message<T> {
    /// The type of the message.
    pub fn message_type(&self) -> (r: &str)
        ensures
            r@ == self.data.message_type@,
    {
        self.data.message_type.as_str()
    }

    /// The path that shows the message in its context.
    pub fn context(&self) -> (r: &str)
        ensures
            r@ == self.data.context@,
    {
        self.data.context.as_str()
    }

    /// The id.
    pub fn id(&self) -> (r: &str)
        ensures
            r@ == self.data.id@,
    {
        self.data.id.as_str()
    }

    /// The subject.
    pub fn subject(&self) -> (r: &str)
        ensures
            r@ == self.data.subject@,
    {
        self.data.subject.as_str()
    }

    /// Whether the message is a reply to a comment.
    pub fn was_comment(&self) -> (r: bool)
        ensures
            r == self.data.was_comment,
    {
        self.data.was_comment
    }

    /// The author.
    pub fn author(&self) -> (r: &Option<String>)
        ensures
            *r == self.data.author,
    {
        &self.data.author
    }

    /// The fullname of the message that this one answers.
    pub fn parent_id(&self) -> (r: &Option<ThingFullname>)
        ensures
            *r == self.data.parent_id,
    {
        &self.data.parent_id
    }

    /// The subreddit, with its prefix.
    pub fn subreddit_name_prefixed(&self) -> (r: &Option<String>)
        ensures
            *r == self.data.subreddit_name_prefixed,
    {
        &self.data.subreddit_name_prefixed
    }

    /// Whether the message is unread.
    pub fn is_new(&self) -> (r: bool)
        ensures
            r == self.data.new,
    {
        self.data.new
    }

    /// The body.
    pub fn body(&self) -> (r: &str)
        ensures
            r@ == self.data.body@,
    {
        self.data.body.as_str()
    }

    /// The receiver.
    pub fn dest(&self) -> (r: &str)
        ensures
            r@ == self.data.dest@,
    {
        self.data.dest.as_str()
    }

    /// The body as HTML.
    pub fn body_html(&self) -> (r: &str)
        ensures
            r@ == self.data.body_html@,
    {
        self.data.body_html.as_str()
    }

    /// The fullname.
    pub fn name(&self) -> (r: &ThingFullname)
        ensures
            *r == self.data.name,
    {
        &self.data.name
    }

    /// When the message was made, in local time.
    pub fn created(&self) -> (r: &serde_json::Number)
        ensures
            *r == self.data.created,
    {
        &self.data.created
    }

    /// When the message was made, in UTC.
    pub fn created_utc(&self) -> (r: &serde_json::Number)
        ensures
            *r == self.data.created_utc,
    {
        &self.data.created_utc
    }

    /// The fullname of the first message of the conversation.
    pub fn first_message_name(&self) -> (r: &Option<ThingFullname>)
        ensures
            *r == self.data.first_message_name,
    {
        &self.data.first_message_name
    }
}

/// A live thread, with the client that fetched it.
#[derive(Debug, PartialEq)]
pub struct LiveThread<T> {
    pub client: T,
    pub data: LiveThreadData,
}

impl<T> FromClientAndData<T, LiveThreadData> for LiveThread<T> {
    open spec fn made(client: T, data: LiveThreadData) -> Self {
        LiveThread { client, data }
    }

    fn new(client: T, data: LiveThreadData) -> (r: Self) {
        LiveThread { client, data }
    }
}

impl<T> LiveThread<T> {
    /// The URL of the live thread on the site.
    pub fn url(&self) -> (r: String)
        ensures
            r@ == "https://www.reddit.com/live/"@ + self.data.id@,
    {
        let mut url = String::from_str("https://www.reddit.com/live/");
        url.append(self.data.id.as_str());
        url
    }
}

/// A subreddit, with a client.
#[derive(Debug, PartialEq)]
pub struct Subreddit<T> {
    /// The name of the subreddit.
    pub name: String,
    /// The client.
    pub client: T,
}

impl<T> Subreddit<T> {
    /// A subreddit with this name.
    pub fn new(name: &str, client: T) -> (r: Subreddit<T>)
        ensures
            r.name@ == name@,
            r.client == client,
    {
        Subreddit { name: name.to_owned(), client }
    }

    /// The endpoint under this subreddit: `r/NAME/` and then the given
    /// endpoint.
    pub fn endpoint(&self, endpoint: EndpointBuilder) -> (r: EndpointBuilder)
        ensures
            r.path@ == "r/"@ + self.name@ + "/"@ + endpoint.path@,
            r.query_view() == endpoint.query_view(),
            r.with_dot_json,
    {
        let joined = build_subreddit(self.name.as_str()).join(endpoint);
        proof {
            assert(joined.query_view() =~= endpoint.query_view());
        }
        joined
    }
}

/// The subreddits as a whole, with a client.
#[derive(Debug, PartialEq)]
pub struct Subreddits<T>(pub T);

/// A user, with a client.
#[derive(Debug, PartialEq)]
pub struct User<T> {
    /// The name of the user.
    pub user: String,
    /// The client.
    pub client: T,
}

impl<T> User<T> {
    /// A user with this name.
    pub fn new(user: &str, client: T) -> (r: User<T>)
        ensures
            r.user@ == user@,
            r.client == client,
    {
        User { user: user.to_owned(), client }
    }
}

/// The viewer, with the credentials and a client.
#[derive(Debug)]
pub struct Me<T> {
    /// The credentials.
    pub config: Config,
    /// The client.
    pub client: T,
}

impl<T> Me<T> {
    /// The viewer with a copy of these credentials.
    pub fn new(config: &Config, client: T) -> (r: Me<T>)
        ensures
            r.config == *config,
            r.client == client,
    {
        Me { config: config.clone(), client }
    }
}

/// The client that is not authenticated: it talks to the public host, with
/// a generic user agent, and neither retries nor keeps to a ratelimit.
#[derive(Debug, PartialEq, Eq)]
pub struct UnauthedClient {
    /// The user agent.
    pub user_agent: String,
}

impl UnauthedClient {
    /// The client.
    pub fn new() -> (r: Self)
        ensures
            r.user_agent@ == crate::auth::GENERIC_USER_AGENT@,
    {
        UnauthedClient { user_agent: String::from_str(crate::auth::GENERIC_USER_AGENT) }
    }

    /// The URL that the client sends a request for this endpoint to.
    pub fn url(&self, endpoint: &EndpointBuilder) -> (r: String)
        ensures
            r@ == crate::endpoint::url_spec(
                crate::auth::PUBLIC_BASE_URL@,
                endpoint.path@,
                endpoint.query_view(),
                endpoint.with_dot_json,
            ),
    {
        endpoint.url(crate::auth::PUBLIC_BASE_URL)
    }
}

/// The empty text.
pub fn default_string() -> (r: String)
    ensures
        r@ == Seq::<char>::empty(),
{
    String::new()
}

/// Whether a document is `null` or an array of values of one type.
pub open spec fn null_or_items_decode<T: Decode>(doc: JsonValue) -> bool {
    doc == JsonValue::Null || items_decode::<T>(doc)
}

/// Reads an array of values, `null` counting as the empty array.
pub fn null_to_empty<T: Decode>(doc: &Json) -> (r: Result<Vec<T>, DecodeError>)
    ensures
        r is Ok <==> null_or_items_decode::<T>(doc@),
        r matches Ok(values) ==> if doc@ == JsonValue::Null {
            values@.len() == 0
        } else {
            items_agree(values@, doc@)
        },
{
    match doc {
        Json::Null => Ok(Vec::new()),
        _ => decode_items(doc),
    }
}

/// The name of a kind of moderator action as the API writes it.
pub fn get_enum_name(value: &ModActionType) -> (r: String)
    ensures
        r@ == value.wire_name(),
{
    String::from_str(value.name())
}

} // verus!
