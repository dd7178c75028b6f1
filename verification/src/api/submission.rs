//! Submissions, with their previews, galleries and media.

use crate::api::moderation::{can_moderate, decode_moderation, moderation_decodes,
    SubmissionModerationData};
use crate::decode::{bool_field, bool_field_or_false, bool_or_false, field, fullname_field,
    int_field, item_field_agrees, item_field_decodes, items_field_agree, items_field_decode,
    number_field, opt_item, opt_item_field_agrees, opt_item_field_decodes, opt_str,
    opt_str_field, opt_text, present, req_bool, req_fullname, req_i32, req_item, req_items,
    req_number, req_str, req_u64, str_field, text_of, Decode, DecodeError};
use crate::api::response::{BasicListing, BasicThing, Listing};
use crate::decode::{items_agree, items_decode, items_of};
use crate::api::distinguished::Distinguished;
use crate::api::things::FlairId;
use crate::decode::{distinct_keys, has_distinct_keys, opt_bool, opt_bool_field, req_json};
use crate::fullname::ThingFullname;
use crate::json::{lemma_object_view, number_view, Json, JsonValue, Member, MemberValue};
use crate::text::str_eq;
use vstd::prelude::*;

verus! {

/// An image of a preview: where it is, and its size.
#[derive(Debug, PartialEq)]
pub struct SubmissionDataPreviewImageSource {
    /// The URL of the image.
    pub url: String,
    /// The width in pixels.
    pub width: u64,
    /// The height in pixels.
    pub height: u64,
}

impl Decode for SubmissionDataPreviewImageSource {
    open spec fn decodes(doc: JsonValue) -> bool {
        &&& str_field(doc, "url"@) is Some
        &&& int_field(doc, "width"@, 0, u64::MAX as int) is Some
        &&& int_field(doc, "height"@, 0, u64::MAX as int) is Some
    }

    open spec fn agrees(&self, doc: JsonValue) -> bool {
        &&& str_field(doc, "url"@) == Some(self.url@)
        &&& int_field(doc, "width"@, 0, u64::MAX as int) == Some(self.width as int)
        &&& int_field(doc, "height"@, 0, u64::MAX as int) == Some(self.height as int)
    }

    fn decode(doc: &Json) -> (r: Result<Self, DecodeError>) {
        let url = req_str(doc, "url")?;
        let width = req_u64(doc, "width")?;
        let height = req_u64(doc, "height")?;
        Ok(SubmissionDataPreviewImageSource { url, width, height })
    }
}

/// One image of a preview: the source, and the same image in other sizes.
#[derive(Debug, PartialEq)]
pub struct SubmissionDataPreviewImage {
    /// The main image.
    pub source: SubmissionDataPreviewImageSource,
    /// The image in the sizes that are on offer.
    pub resolutions: Vec<SubmissionDataPreviewImageSource>,
    /// The id of the image.
    pub id: String,
}

impl Decode for SubmissionDataPreviewImage {
    open spec fn decodes(doc: JsonValue) -> bool {
        &&& item_field_decodes::<SubmissionDataPreviewImageSource>(doc, "source"@)
        &&& items_field_decode::<SubmissionDataPreviewImageSource>(doc, "resolutions"@)
        &&& str_field(doc, "id"@) is Some
    }

    open spec fn agrees(&self, doc: JsonValue) -> bool {
        &&& item_field_agrees(self.source, doc, "source"@)
        &&& items_field_agree(self.resolutions@, doc, "resolutions"@)
        &&& str_field(doc, "id"@) == Some(self.id@)
    }

    fn decode(doc: &Json) -> (r: Result<Self, DecodeError>) {
        let source = req_item(doc, "source")?;
        let resolutions = req_items(doc, "resolutions")?;
        let id = req_str(doc, "id")?;
        Ok(SubmissionDataPreviewImage { source, resolutions, id })
    }
}

/// The preview of a submission.
#[derive(Debug, PartialEq)]
pub struct SubmissionDataPreview {
    /// The images of the preview.
    pub images: Vec<SubmissionDataPreviewImage>,
    /// Whether the preview is enabled.
    pub enabled: bool,
}

impl Decode for SubmissionDataPreview {
    open spec fn decodes(doc: JsonValue) -> bool {
        &&& items_field_decode::<SubmissionDataPreviewImage>(doc, "images"@)
        &&& bool_field(doc, "enabled"@) is Some
    }

    open spec fn agrees(&self, doc: JsonValue) -> bool {
        &&& items_field_agree(self.images@, doc, "images"@)
        &&& bool_field(doc, "enabled"@) == Some(self.enabled)
    }

    fn decode(doc: &Json) -> (r: Result<Self, DecodeError>) {
        let images = req_items(doc, "images")?;
        let enabled = req_bool(doc, "enabled")?;
        Ok(SubmissionDataPreview { images, enabled })
    }
}

/// One item of a gallery.
#[derive(Debug, PartialEq)]
pub struct SubmissionDataGalleryItem {
    /// The caption.
    pub caption: Option<String>,
    /// The id of the item.
    pub id: serde_json::Number,
    /// The id of its media, a key of the submission's media metadata.
    pub media_id: String,
}

impl Decode for SubmissionDataGalleryItem {
    open spec fn decodes(doc: JsonValue) -> bool {
        &&& opt_str_field(doc, "caption"@) is Some
        &&& number_field(doc, "id"@) is Some
        &&& str_field(doc, "media_id"@) is Some
    }

    open spec fn agrees(&self, doc: JsonValue) -> bool {
        &&& opt_str_field(doc, "caption"@) == Some(opt_text(self.caption))
        &&& number_field(doc, "id"@) == Some(number_view(self.id))
        &&& str_field(doc, "media_id"@) == Some(self.media_id@)
    }

    fn decode(doc: &Json) -> (r: Result<Self, DecodeError>) {
        let caption = opt_str(doc, "caption")?;
        let id = req_number(doc, "id")?;
        let media_id = req_str(doc, "media_id")?;
        Ok(SubmissionDataGalleryItem { caption, id, media_id })
    }
}

/// The gallery of a submission.
#[derive(Debug, PartialEq)]
pub struct SubmissionDataGalleryData {
    /// The items of the gallery.
    pub items: Vec<SubmissionDataGalleryItem>,
}

impl Decode for SubmissionDataGalleryData {
    open spec fn decodes(doc: JsonValue) -> bool {
        items_field_decode::<SubmissionDataGalleryItem>(doc, "items"@)
    }

    open spec fn agrees(&self, doc: JsonValue) -> bool {
        items_field_agree(self.items@, doc, "items"@)
    }

    fn decode(doc: &Json) -> (r: Result<Self, DecodeError>) {
        let items = req_items(doc, "items")?;
        Ok(SubmissionDataGalleryData { items })
    }
}

/// The value of an image in the media metadata.
#[derive(Debug, PartialEq)]
pub struct SubmissionMetadataImage {
    /// The URL of the image.
    pub u: String,
    /// The width.
    pub x: u64,
    /// The height.
    pub y: u64,
}

impl Decode for SubmissionMetadataImage {
    open spec fn decodes(doc: JsonValue) -> bool {
        &&& str_field(doc, "u"@) is Some
        &&& int_field(doc, "x"@, 0, u64::MAX as int) is Some
        &&& int_field(doc, "y"@, 0, u64::MAX as int) is Some
    }

    open spec fn agrees(&self, doc: JsonValue) -> bool {
        &&& str_field(doc, "u"@) == Some(self.u@)
        &&& int_field(doc, "x"@, 0, u64::MAX as int) == Some(self.x as int)
        &&& int_field(doc, "y"@, 0, u64::MAX as int) == Some(self.y as int)
    }

    fn decode(doc: &Json) -> (r: Result<Self, DecodeError>) {
        let u = req_str(doc, "u")?;
        let x = req_u64(doc, "x")?;
        let y = req_u64(doc, "y")?;
        Ok(SubmissionMetadataImage { u, x, y })
    }
}

/// The value of an animated image in the media metadata.
#[derive(Debug, PartialEq)]
pub struct SubmissionMetadataAnimatedImage {
    /// The width.
    pub x: u64,
    /// The height.
    pub y: u64,
    /// The URL of the image as a gif.
    pub gif: String,
    /// The URL of the image as an mp4.
    pub mp4: String,
}

impl Decode for SubmissionMetadataAnimatedImage {
    open spec fn decodes(doc: JsonValue) -> bool {
        &&& int_field(doc, "x"@, 0, u64::MAX as int) is Some
        &&& int_field(doc, "y"@, 0, u64::MAX as int) is Some
        &&& str_field(doc, "gif"@) is Some
        &&& str_field(doc, "mp4"@) is Some
    }

    open spec fn agrees(&self, doc: JsonValue) -> bool {
        &&& int_field(doc, "x"@, 0, u64::MAX as int) == Some(self.x as int)
        &&& int_field(doc, "y"@, 0, u64::MAX as int) == Some(self.y as int)
        &&& str_field(doc, "gif"@) == Some(self.gif@)
        &&& str_field(doc, "mp4"@) == Some(self.mp4@)
    }

    fn decode(doc: &Json) -> (r: Result<Self, DecodeError>) {
        let x = req_u64(doc, "x")?;
        let y = req_u64(doc, "y")?;
        let gif = req_str(doc, "gif")?;
        let mp4 = req_str(doc, "mp4")?;
        Ok(SubmissionMetadataAnimatedImage { x, y, gif, mp4 })
    }
}

/// One piece of media of a submission. On the wire the member `e` says
/// which kind it is.
#[derive(Debug, PartialEq)]
pub enum SubmissionDataMediaMetadata {
    /// An image.
    Image {
        /// The id of the media.
        id: String,
        /// The media type, such as `image/png`.
        m: String,
        /// The image.
        s: SubmissionMetadataImage,
    },
    /// An animated image.
    AnimatedImage {
        /// The id of the media.
        id: String,
        /// The media type, such as `image/gif`.
        m: String,
        /// The image.
        s: SubmissionMetadataAnimatedImage,
    },
    /// A video hosted by the site.
    RedditVideo {
        /// The id of the video.
        id: String,
        /// Whether the video is a gif.
        is_gif: bool,
        /// The status of the video.
        status: String,
        /// The width.
        x: i32,
        /// The height.
        y: i32,
        /// The URL of the DASH stream.
        dash_url: String,
        /// The URL of the HLS stream.
        hls_url: String,
    },
    /// The member `e` is missing.
    Unknown,
}

/// Whether a document has the fields of an image.
pub open spec fn image_decodes(doc: JsonValue) -> bool {
    &&& str_field(doc, "id"@) is Some
    &&& str_field(doc, "m"@) is Some
    &&& item_field_decodes::<SubmissionMetadataImage>(doc, "s"@)
}

/// Whether a document has the fields of an animated image.
pub open spec fn animated_image_decodes(doc: JsonValue) -> bool {
    &&& str_field(doc, "id"@) is Some
    &&& str_field(doc, "m"@) is Some
    &&& item_field_decodes::<SubmissionMetadataAnimatedImage>(doc, "s"@)
}

/// Whether a document has the fields of a video.
pub open spec fn video_decodes(doc: JsonValue) -> bool {
    &&& str_field(doc, "id"@) is Some
    &&& bool_field(doc, "isGif"@) is Some
    &&& str_field(doc, "status"@) is Some
    &&& int_field(doc, "x"@, i32::MIN as int, i32::MAX as int) is Some
    &&& int_field(doc, "y"@, i32::MIN as int, i32::MAX as int) is Some
    &&& str_field(doc, "dashUrl"@) is Some
    &&& str_field(doc, "hlsUrl"@) is Some
}

impl Decode for SubmissionDataMediaMetadata {
    /// A document is media where it is an object and its member `e` is
    /// missing, or names one of the three kinds and the fields of that kind
    /// are there.
    open spec fn decodes(doc: JsonValue) -> bool {
        &&& doc is Object
        &&& match field(doc, "e"@) {
            None => true,
            Some(JsonValue::Str(tag)) => if tag == "Image"@ {
                image_decodes(doc)
            } else if tag == "AnimatedImage"@ {
                animated_image_decodes(doc)
            } else if tag == "RedditVideo"@ {
                video_decodes(doc)
            } else {
                false
            },
            Some(_) => false,
        }
    }

    open spec fn agrees(&self, doc: JsonValue) -> bool {
        match self {
            SubmissionDataMediaMetadata::Unknown => field(doc, "e"@) is None,
            SubmissionDataMediaMetadata::Image { id, m, s } => {
                &&& str_field(doc, "e"@) == Some("Image"@)
                &&& str_field(doc, "id"@) == Some(id@)
                &&& str_field(doc, "m"@) == Some(m@)
                &&& item_field_agrees(*s, doc, "s"@)
            },
            SubmissionDataMediaMetadata::AnimatedImage { id, m, s } => {
                &&& str_field(doc, "e"@) == Some("AnimatedImage"@)
                &&& str_field(doc, "id"@) == Some(id@)
                &&& str_field(doc, "m"@) == Some(m@)
                &&& item_field_agrees(*s, doc, "s"@)
            },
            SubmissionDataMediaMetadata::RedditVideo {
                id,
                is_gif,
                status,
                x,
                y,
                dash_url,
                hls_url,
            } => {
                &&& str_field(doc, "e"@) == Some("RedditVideo"@)
                &&& str_field(doc, "id"@) == Some(id@)
                &&& bool_field(doc, "isGif"@) == Some(*is_gif)
                &&& str_field(doc, "status"@) == Some(status@)
                &&& int_field(doc, "x"@, i32::MIN as int, i32::MAX as int) == Some(*x as int)
                &&& int_field(doc, "y"@, i32::MIN as int, i32::MAX as int) == Some(*y as int)
                &&& str_field(doc, "dashUrl"@) == Some(dash_url@)
                &&& str_field(doc, "hlsUrl"@) == Some(hls_url@)
            },
        }
    }

    fn decode(doc: &Json) -> (r: Result<Self, DecodeError>) {
        match doc {
            Json::Object(_) => {
                proof {
                    lemma_object_view(*doc);
                }
            },
            _ => {
                return Err(DecodeError);
            },
        }
        let tag = match doc.get("e") {
            None => {
                return Ok(SubmissionDataMediaMetadata::Unknown);
            },
            Some(tag) => match tag.as_str() {
                Some(tag) => tag,
                None => {
                    return Err(DecodeError);
                },
            },
        };
        if str_eq(tag, "Image") {
            let id = req_str(doc, "id")?;
            let m = req_str(doc, "m")?;
            let s = req_item(doc, "s")?;
            Ok(SubmissionDataMediaMetadata::Image { id, m, s })
        } else if str_eq(tag, "AnimatedImage") {
            let id = req_str(doc, "id")?;
            let m = req_str(doc, "m")?;
            let s = req_item(doc, "s")?;
            Ok(SubmissionDataMediaMetadata::AnimatedImage { id, m, s })
        } else if str_eq(tag, "RedditVideo") {
            let id = req_str(doc, "id")?;
            let is_gif = req_bool(doc, "isGif")?;
            let status = req_str(doc, "status")?;
            let x = req_i32(doc, "x")?;
            let y = req_i32(doc, "y")?;
            let dash_url = req_str(doc, "dashUrl")?;
            let hls_url = req_str(doc, "hlsUrl")?;
            Ok(
                SubmissionDataMediaMetadata::RedditVideo {
                    id,
                    is_gif,
                    status,
                    x,
                    y,
                    dash_url,
                    hls_url,
                },
            )
        } else {
            Err(DecodeError)
        }
    }
}

/// One entry of the media metadata of a submission: the id of a piece of
/// media, and the media.
#[derive(Debug, PartialEq)]
pub struct SubmissionDataMediaMetadataValue {
    /// The id, the key of the entry.
    pub id: String,
    /// The media.
    pub media: SubmissionDataMediaMetadata,
}

/// The media metadata of a submission: a map from the id of a piece of
/// media to the media, kept in the order of the document. No id occurs
/// twice.
#[derive(Debug, PartialEq)]
pub struct MediaMetadataMap {
    /// The entries.
    pub entries: Vec<SubmissionDataMediaMetadataValue>,
}

impl MediaMetadataMap {
    /// Whether no id occurs twice among the entries.
    pub open spec fn well_formed(&self) -> bool {
        forall|i: int, j: int|
            0 <= i < j < self.entries@.len() ==> (#[trigger] self.entries@[i]).id@ != (
            #[trigger] self.entries@[j]).id@
    }

    /// A map that holds what a document says is well formed.
    pub proof fn lemma_agrees_well_formed(&self, doc: JsonValue)
        requires
            self.agrees(doc),
        ensures
            self.well_formed(),
    {
        let members = doc->Object_0;
        assert forall|i: int, j: int| 0 <= i < j < self.entries@.len() implies (
        #[trigger] self.entries@[i]).id@ != (#[trigger] self.entries@[j]).id@ by {
            assert(members[i].key != members[j].key);
        }
    }

    /// The position of the entry with an id, or the number of entries where
    /// none has it.
    pub open spec fn position(&self, id: Seq<char>, from: int) -> int
        decreases self.entries@.len() - from,
    {
        if from >= self.entries@.len() {
            self.entries@.len() as int
        } else if self.entries@[from].id@ == id {
            from
        } else {
            self.position(id, from + 1)
        }
    }

    /// The media with an id, where the map holds it.
    pub fn get(&self, id: &str) -> (r: Option<&SubmissionDataMediaMetadata>)
        ensures
            r is Some <==> self.position(id@, 0) < self.entries@.len(),
            r matches Some(media) ==> *media == self.entries@[self.position(id@, 0)].media,
    {
        let mut i: usize = 0;
        while i < self.entries.len()
            invariant
                i <= self.entries.len(),
                self.position(id@, 0) == self.position(id@, i as int),
            decreases self.entries.len() - i,
        {
            if str_eq(self.entries[i].id.as_str(), id) {
                return Some(&self.entries[i].media);
            }
            i = i + 1;
        }
        None
    }
}

impl Decode for MediaMetadataMap {
    /// A document is such a map where it is an object of which no two
    /// members have the same key, and every value is a piece of media.
    open spec fn decodes(doc: JsonValue) -> bool {
        &&& doc matches JsonValue::Object(members)
        &&& distinct_keys(members)
        &&& forall|i: int|
            0 <= i < members.len() ==> SubmissionDataMediaMetadata::decodes(
                (#[trigger] members[i]).value,
            )
    }

    open spec fn agrees(&self, doc: JsonValue) -> bool {
        &&& doc matches JsonValue::Object(members)
        &&& distinct_keys(members)
        &&& members.len() == self.entries@.len()
        &&& forall|i: int|
            0 <= i < self.entries@.len() ==> (#[trigger] self.entries@[i]).id@ == members[i].key
                && self.entries@[i].media.agrees(members[i].value)
    }

    fn decode(doc: &Json) -> (r: Result<Self, DecodeError>) {
        let members = match doc {
            Json::Object(members) => members,
            _ => {
                return Err(DecodeError);
            },
        };
        proof {
            lemma_object_view(*doc);
        }
        if !has_distinct_keys(doc) {
            return Err(DecodeError);
        }
        let ghost models = doc@->Object_0;
        let mut entries: Vec<SubmissionDataMediaMetadataValue> = Vec::new();
        let mut i: usize = 0;
        while i < members.len()
            invariant
                i <= members.len(),
                entries@.len() == i,
                doc@ == JsonValue::Object(models),
                distinct_keys(models),
                models.len() == members@.len(),
                forall|k: int|
                    0 <= k < members@.len() ==> (#[trigger] models[k]) == (MemberValue {
                        key: members@[k].key@,
                        value: members@[k].value@,
                    }),
                forall|k: int|
                    0 <= k < i ==> SubmissionDataMediaMetadata::decodes(
                        (#[trigger] models[k]).value,
                    ),
                forall|k: int|
                    0 <= k < i ==> (#[trigger] entries@[k]).id@ == models[k].key
                        && entries@[k].media.agrees(models[k].value),
            decreases members.len() - i,
        {
            match SubmissionDataMediaMetadata::decode(&members[i].value) {
                Ok(media) => {
                    entries.push(
                        SubmissionDataMediaMetadataValue { id: members[i].key.clone(), media },
                    );
                },
                Err(e) => {
                    assert(!SubmissionDataMediaMetadata::decodes(models[i as int].value));
                    assert(doc@->Object_0[i as int] == models[i as int]);
                    return Err(e);
                },
            }
            i = i + 1;
        }
        Ok(MediaMetadataMap { entries })
    }
}

/// A submission.
#[derive(Debug, PartialEq)]
pub struct SubmissionData {
    /// The domain of the link, or of the subreddit for a self post.
    pub domain: Option<String>,
    /// The name of the subreddit, without `/r/`.
    pub subreddit: String,
    /// The name of the subreddit, with its prefix.
    pub subreddit_name_prefixed: Option<String>,
    /// The text of a self post as HTML.
    pub selftext_html: Option<String>,
    /// The text of a self post, in Markdown; empty for a link post.
    pub selftext: String,
    /// How the viewer voted: up, down, or not at all.
    pub likes: Option<bool>,
    /// The order that is suggested for the comments.
    pub suggested_sort: Option<String>,
    /// The text of the flair of the submission.
    pub link_flair_text: Option<String>,
    /// The id of the template of the flair of the submission.
    pub link_flair_template_id: Option<FlairId>,
    /// The id, in base 36.
    pub id: String,
    /// How often the submission was gilded.
    pub gilded: u64,
    /// Whether the submission is archived.
    pub archived: bool,
    /// Whether the viewer has followed the link.
    pub clicked: bool,
    /// The name of the author.
    pub author: String,
    /// The score, which the site may fuzz.
    pub score: serde_json::Number,
    /// Whether the submission is marked as not safe for work.
    pub over_18: bool,
    /// Whether the submission is marked as a spoiler.
    pub spoiler: bool,
    /// Whether the viewer has hidden the submission.
    pub hidden: bool,
    /// The preview.
    pub preview: Option<SubmissionDataPreview>,
    /// The number of comments.
    pub num_comments: u64,
    /// The URL of the thumbnail.
    pub thumbnail: String,
    /// The fullname of the subreddit.
    pub subreddit_id: ThingFullname,
    /// Whether the score is hidden.
    pub hide_score: bool,
    /// Whether, and when, the submission was edited, as the API sends it.
    pub edited: Json,
    /// The CSS class of the flair of the submission.
    pub link_flair_css_class: Option<String>,
    /// The CSS class of the flair of the author.
    pub author_flair_css_class: Option<String>,
    /// The id of the template of the flair of the author.
    pub author_flair_template_id: Option<FlairId>,
    /// The downvotes, which the site may fuzz.
    pub downs: serde_json::Number,
    /// The upvotes, which the site may fuzz.
    pub ups: serde_json::Number,
    /// The share of upvotes among the votes.
    pub upvote_ratio: serde_json::Number,
    /// Whether the viewer has saved the submission.
    pub saved: bool,
    /// Whether the submission is stickied.
    pub stickied: bool,
    /// Whether this is a self post.
    pub is_self: bool,
    /// Whether this is a gallery; `false` where the member is missing.
    pub is_gallery: bool,
    /// Whether this is a video; `false` where the member is missing.
    pub is_video: bool,
    /// The permanent path of the submission.
    pub permalink: String,
    /// Whether the submission is locked.
    pub locked: bool,
    /// The fullname.
    pub name: ThingFullname,
    /// When the submission was made, in local time.
    pub created: serde_json::Number,
    /// The URL of a link post.
    pub url: Option<String>,
    /// The text of the flair of the author.
    pub author_flair_text: Option<String>,
    /// Whether the subreddit is quarantined.
    pub quarantine: bool,
    /// The title.
    pub title: String,
    /// When the submission was made, in UTC.
    pub created_utc: serde_json::Number,
    /// How the submission is distinguished.
    pub distinguished: Distinguished,
    /// Whether the viewer has visited the link.
    pub visited: bool,
    /// The gallery.
    pub gallery_data: Option<SubmissionDataGalleryData>,
    /// The media of the gallery.
    pub media_metadata: Option<MediaMetadataMap>,
    /// The moderation state, for a viewer who moderates.
    pub moderation: Option<SubmissionModerationData>,
}

impl Decode for SubmissionData {
    open spec fn decodes(doc: JsonValue) -> bool {
        &&& opt_str_field(doc, "domain"@) is Some
        &&& str_field(doc, "subreddit"@) is Some
        &&& opt_str_field(doc, "subreddit_name_prefixed"@) is Some
        &&& opt_str_field(doc, "selftext_html"@) is Some
        &&& str_field(doc, "selftext"@) is Some
        &&& opt_bool_field(doc, "likes"@) is Some
        &&& opt_str_field(doc, "suggested_sort"@) is Some
        &&& opt_str_field(doc, "link_flair_text"@) is Some
        &&& opt_item_field_decodes::<FlairId>(doc, "link_flair_template_id"@)
        &&& str_field(doc, "id"@) is Some
        &&& int_field(doc, "gilded"@, 0, u64::MAX as int) is Some
        &&& bool_field(doc, "archived"@) is Some
        &&& bool_field(doc, "clicked"@) is Some
        &&& str_field(doc, "author"@) is Some
        &&& number_field(doc, "score"@) is Some
        &&& bool_field(doc, "over_18"@) is Some
        &&& bool_field(doc, "spoiler"@) is Some
        &&& bool_field(doc, "hidden"@) is Some
        &&& opt_item_field_decodes::<SubmissionDataPreview>(doc, "preview"@)
        &&& int_field(doc, "num_comments"@, 0, u64::MAX as int) is Some
        &&& str_field(doc, "thumbnail"@) is Some
        &&& fullname_field(doc, "subreddit_id"@) is Some
        &&& bool_field(doc, "hide_score"@) is Some
        &&& field(doc, "edited"@) is Some
        &&& opt_str_field(doc, "link_flair_css_class"@) is Some
        &&& opt_str_field(doc, "author_flair_css_class"@) is Some
        &&& opt_item_field_decodes::<FlairId>(doc, "author_flair_template_id"@)
        &&& number_field(doc, "downs"@) is Some
        &&& number_field(doc, "ups"@) is Some
        &&& number_field(doc, "upvote_ratio"@) is Some
        &&& bool_field(doc, "saved"@) is Some
        &&& bool_field(doc, "stickied"@) is Some
        &&& bool_field(doc, "is_self"@) is Some
        &&& bool_field_or_false(doc, "is_gallery"@) is Some
        &&& bool_field_or_false(doc, "is_video"@) is Some
        &&& str_field(doc, "permalink"@) is Some
        &&& bool_field(doc, "locked"@) is Some
        &&& fullname_field(doc, "name"@) is Some
        &&& number_field(doc, "created"@) is Some
        &&& opt_str_field(doc, "url"@) is Some
        &&& opt_str_field(doc, "author_flair_text"@) is Some
        &&& bool_field(doc, "quarantine"@) is Some
        &&& str_field(doc, "title"@) is Some
        &&& number_field(doc, "created_utc"@) is Some
        &&& Distinguished::field_decoded(doc, "distinguished"@) is Some
        &&& bool_field(doc, "visited"@) is Some
        &&& opt_item_field_decodes::<SubmissionDataGalleryData>(doc, "gallery_data"@)
        &&& opt_item_field_decodes::<MediaMetadataMap>(doc, "media_metadata"@)
        &&& moderation_decodes(doc)
    }

    /// The moderation state is there exactly where the document lets its
    /// reader moderate.
    open spec fn agrees(&self, doc: JsonValue) -> bool {
        &&& opt_str_field(doc, "domain"@) == Some(opt_text(self.domain))
        &&& str_field(doc, "subreddit"@) == Some(self.subreddit@)
        &&& opt_str_field(doc, "subreddit_name_prefixed"@) == Some(opt_text(self.subreddit_name_prefixed))
        &&& opt_str_field(doc, "selftext_html"@) == Some(opt_text(self.selftext_html))
        &&& str_field(doc, "selftext"@) == Some(self.selftext@)
        &&& opt_bool_field(doc, "likes"@) == Some(self.likes)
        &&& opt_str_field(doc, "suggested_sort"@) == Some(opt_text(self.suggested_sort))
        &&& opt_str_field(doc, "link_flair_text"@) == Some(opt_text(self.link_flair_text))
        &&& opt_item_field_agrees(self.link_flair_template_id, doc, "link_flair_template_id"@)
        &&& str_field(doc, "id"@) == Some(self.id@)
        &&& int_field(doc, "gilded"@, 0, u64::MAX as int) == Some(self.gilded as int)
        &&& bool_field(doc, "archived"@) == Some(self.archived)
        &&& bool_field(doc, "clicked"@) == Some(self.clicked)
        &&& str_field(doc, "author"@) == Some(self.author@)
        &&& number_field(doc, "score"@) == Some(number_view(self.score))
        &&& bool_field(doc, "over_18"@) == Some(self.over_18)
        &&& bool_field(doc, "spoiler"@) == Some(self.spoiler)
        &&& bool_field(doc, "hidden"@) == Some(self.hidden)
        &&& opt_item_field_agrees(self.preview, doc, "preview"@)
        &&& int_field(doc, "num_comments"@, 0, u64::MAX as int) == Some(self.num_comments as int)
        &&& str_field(doc, "thumbnail"@) == Some(self.thumbnail@)
        &&& fullname_field(doc, "subreddit_id"@) == Some(self.subreddit_id@)
        &&& bool_field(doc, "hide_score"@) == Some(self.hide_score)
        &&& field(doc, "edited"@) == Some(self.edited@)
        &&& opt_str_field(doc, "link_flair_css_class"@) == Some(opt_text(self.link_flair_css_class))
        &&& opt_str_field(doc, "author_flair_css_class"@) == Some(opt_text(self.author_flair_css_class))
        &&& opt_item_field_agrees(self.author_flair_template_id, doc, "author_flair_template_id"@)
        &&& number_field(doc, "downs"@) == Some(number_view(self.downs))
        &&& number_field(doc, "ups"@) == Some(number_view(self.ups))
        &&& number_field(doc, "upvote_ratio"@) == Some(number_view(self.upvote_ratio))
        &&& bool_field(doc, "saved"@) == Some(self.saved)
        &&& bool_field(doc, "stickied"@) == Some(self.stickied)
        &&& bool_field(doc, "is_self"@) == Some(self.is_self)
        &&& bool_field_or_false(doc, "is_gallery"@) == Some(self.is_gallery)
        &&& bool_field_or_false(doc, "is_video"@) == Some(self.is_video)
        &&& str_field(doc, "permalink"@) == Some(self.permalink@)
        &&& bool_field(doc, "locked"@) == Some(self.locked)
        &&& fullname_field(doc, "name"@) == Some(self.name@)
        &&& number_field(doc, "created"@) == Some(number_view(self.created))
        &&& opt_str_field(doc, "url"@) == Some(opt_text(self.url))
        &&& opt_str_field(doc, "author_flair_text"@) == Some(opt_text(self.author_flair_text))
        &&& bool_field(doc, "quarantine"@) == Some(self.quarantine)
        &&& str_field(doc, "title"@) == Some(self.title@)
        &&& number_field(doc, "created_utc"@) == Some(number_view(self.created_utc))
        &&& Distinguished::field_decoded(doc, "distinguished"@) == Some(self.distinguished)
        &&& bool_field(doc, "visited"@) == Some(self.visited)
        &&& opt_item_field_agrees(self.gallery_data, doc, "gallery_data"@)
        &&& opt_item_field_agrees(self.media_metadata, doc, "media_metadata"@)
        &&& match self.moderation {
            Some(m) => can_moderate(doc) && m.agrees(doc),
            None => !can_moderate(doc),
        }
    }

    fn decode(doc: &Json) -> (r: Result<Self, DecodeError>) {
        let domain = opt_str(doc, "domain")?;
        let subreddit = req_str(doc, "subreddit")?;
        let subreddit_name_prefixed = opt_str(doc, "subreddit_name_prefixed")?;
        let selftext_html = opt_str(doc, "selftext_html")?;
        let selftext = req_str(doc, "selftext")?;
        let likes = opt_bool(doc, "likes")?;
        let suggested_sort = opt_str(doc, "suggested_sort")?;
        let link_flair_text = opt_str(doc, "link_flair_text")?;
        let link_flair_template_id = opt_item(doc, "link_flair_template_id")?;
        let id = req_str(doc, "id")?;
        let gilded = req_u64(doc, "gilded")?;
        let archived = req_bool(doc, "archived")?;
        let clicked = req_bool(doc, "clicked")?;
        let author = req_str(doc, "author")?;
        let score = req_number(doc, "score")?;
        let over_18 = req_bool(doc, "over_18")?;
        let spoiler = req_bool(doc, "spoiler")?;
        let hidden = req_bool(doc, "hidden")?;
        let preview = opt_item(doc, "preview")?;
        let num_comments = req_u64(doc, "num_comments")?;
        let thumbnail = req_str(doc, "thumbnail")?;
        let subreddit_id = req_fullname(doc, "subreddit_id")?;
        let hide_score = req_bool(doc, "hide_score")?;
        let edited = req_json(doc, "edited")?;
        let link_flair_css_class = opt_str(doc, "link_flair_css_class")?;
        let author_flair_css_class = opt_str(doc, "author_flair_css_class")?;
        let author_flair_template_id = opt_item(doc, "author_flair_template_id")?;
        let downs = req_number(doc, "downs")?;
        let ups = req_number(doc, "ups")?;
        let upvote_ratio = req_number(doc, "upvote_ratio")?;
        let saved = req_bool(doc, "saved")?;
        let stickied = req_bool(doc, "stickied")?;
        let is_self = req_bool(doc, "is_self")?;
        let is_gallery = bool_or_false(doc, "is_gallery")?;
        let is_video = bool_or_false(doc, "is_video")?;
        let permalink = req_str(doc, "permalink")?;
        let locked = req_bool(doc, "locked")?;
        let name = req_fullname(doc, "name")?;
        let created = req_number(doc, "created")?;
        let url = opt_str(doc, "url")?;
        let author_flair_text = opt_str(doc, "author_flair_text")?;
        let quarantine = req_bool(doc, "quarantine")?;
        let title = req_str(doc, "title")?;
        let created_utc = req_number(doc, "created_utc")?;
        let distinguished = Distinguished::decode_field(doc, "distinguished")?;
        let visited = req_bool(doc, "visited")?;
        let gallery_data = opt_item(doc, "gallery_data")?;
        let media_metadata = opt_item(doc, "media_metadata")?;
        let moderation = decode_moderation(doc)?;
        Ok(
            SubmissionData {
                domain,
                subreddit,
                subreddit_name_prefixed,
                selftext_html,
                selftext,
                likes,
                suggested_sort,
                link_flair_text,
                link_flair_template_id,
                id,
                gilded,
                archived,
                clicked,
                author,
                score,
                over_18,
                spoiler,
                hidden,
                preview,
                num_comments,
                thumbnail,
                subreddit_id,
                hide_score,
                edited,
                link_flair_css_class,
                author_flair_css_class,
                author_flair_template_id,
                downs,
                ups,
                upvote_ratio,
                saved,
                stickied,
                is_self,
                is_gallery,
                is_video,
                permalink,
                locked,
                name,
                created,
                url,
                author_flair_text,
                quarantine,
                title,
                created_utc,
                distinguished,
                visited,
                gallery_data,
                media_metadata,
                moderation,
            },
        )
    }
}

/// The data of the first child of a listing of things, wrapped as a
/// thing: the member `data` of the first item of the member `children` of
/// the member `data`.
pub open spec fn first_child_data(doc: JsonValue) -> Option<JsonValue> {
    match field(doc, "data"@) {
        Some(data) => match field(data, "children"@) {
            Some(JsonValue::Array(children)) => if children.len() > 0 {
                field(children[0], "data"@)
            } else {
                None
            },
            _ => None,
        },
        None => None,
    }
}

/// The submission of a submission's page: the only child of the first of
/// the two listings that the API returns for the page.
#[derive(Debug, PartialEq)]
pub struct ArticleCommentsResponseWithoutComments {
    /// The submission.
    pub submission: SubmissionData,
}

impl Decode for ArticleCommentsResponseWithoutComments {
    /// The document is an array of two items whose first is a listing of
    /// submissions with at least one child. The second item is not looked
    /// at.
    open spec fn decodes(doc: JsonValue) -> bool {
        &&& items_of(doc) matches Some(items)
        &&& items.len() == 2
        &&& BasicListing::<SubmissionData>::decodes(items[0])
        &&& first_child_data(items[0]) is Some
    }

    open spec fn agrees(&self, doc: JsonValue) -> bool {
        &&& items_of(doc) matches Some(items)
        &&& items.len() == 2
        &&& first_child_data(items[0]) matches Some(v) && self.submission.agrees(v)
    }

    fn decode(doc: &Json) -> (r: Result<Self, DecodeError>) {
        let items = match doc.as_array() {
            Some(items) => items,
            None => {
                return Err(DecodeError);
            },
        };
        if items.len() != 2 {
            return Err(DecodeError);
        }
        let listing: BasicListing<SubmissionData> = BasicThing::decode(&items[0])?;
        let mut children = listing.data.children;
        if children.len() == 0 {
            return Err(DecodeError);
        }
        let first = children.swap_remove(0);
        Ok(ArticleCommentsResponseWithoutComments { submission: first.data })
    }
}

} // verus!
