//! Settings of one polled source.

use vstd::prelude::*;

verus! {

/// What is configured under one item name.
#[derive(Debug, Clone)]
pub enum ItemValue {
    /// A single item, given by its locator.
    Url(String),
    /// A named group of items: member name and locator, in configured order.
    Category(Vec<(String, String)>),
    /// A value that names nothing to poll; it is passed over.
    Other,
    /// A value that the poll cycle cannot take: a list of values, or a group
    /// of which a member is not a locator. A source that holds one is not polled.
    Unsupported,
}

/// Configuration of one source polled through `yt-dlp`.
#[derive(Debug, Clone)]
pub struct YtDlpConfig {
    /// Module name.
    pub name: Option<String>,
    /// Interval in minutes between checks.
    pub interval: u64,
    /// Amount of items to query.
    pub limit: Option<u64>,
    /// Items to check, by name, in configured order. In a configuration
    /// read from a file no name occurs twice: see [`YtDlpConfig::distinct_names`].
    pub items: Vec<(String, ItemValue)>,
    /// Format of the thumbnail.
    pub thumbnail_format: Option<String>,
    /// Output template for `yt-dlp`.
    pub output_format: Option<String>,
    /// Download description.
    pub write_description: Option<bool>,
    /// Download `info.json`.
    pub write_info_json: Option<bool>,
    /// Download comments.
    pub write_comments: Option<bool>,
    /// Download thumbnail.
    pub write_thumbnail: Option<bool>,
    /// Download subtitles.
    pub write_subs: Option<bool>,
    /// Extract audio.
    pub audio_only: Option<bool>,
    /// Audio format.
    pub audio_format: Option<String>,
    /// Embed subtitles.
    pub embed_subs: Option<bool>,
    /// Embed thumbnail.
    pub embed_thumbnail: Option<bool>,
    /// Embed metadata.
    pub embed_metadata: Option<bool>,
    /// Embed chapters.
    pub embed_chapters: Option<bool>,
    /// Embed `info.json`.
    pub embed_info_json: Option<bool>,
    /// Split by chapter.
    pub split_chapters: Option<bool>,
    /// Format selection.
    pub format: Option<String>,
    /// Cookie file.
    pub cookie: Option<String>,
    /// Webhooks for notifications.
    pub webhooks: Option<Vec<String>>,
}

/// The names of a list of named values, in order.
pub open spec fn names<T>(list: Seq<(String, T)>) -> Seq<Seq<char>> {
    Seq::new(list.len(), |i: int| list[i].0@)
}

/// No name occurs twice.
pub open spec fn distinct(names: Seq<Seq<char>>) -> bool {
    forall|i: int, j: int| 0 <= i < j < names.len() ==> names[i] != names[j]
}

impl ItemValue {
    /// No member of a category occurs twice by name.
    pub open spec fn distinct_members(self) -> bool {
        match self {
            ItemValue::Category(members) => distinct(names(members@)),
            _ => true,
        }
    }
}

impl YtDlpConfig {
    /// The items are named as the keys of a table are: no item name occurs
    /// twice, and within a category no member name does. A configuration
    /// read from a file is always so. Nothing in the poll cycle rests on it;
    /// what it gives is that every name is polled once in a cycle.
    pub open spec fn distinct_names(&self) -> bool {
        &&& distinct(names(self.items@))
        &&& forall|i: int|
            0 <= i < self.items.len() ==> (#[trigger] self.items[i]).1.distinct_members()
    }

    /// Whether every item can be polled: none is [`ItemValue::Unsupported`].
    pub open spec fn supported(&self) -> bool {
        forall|i: int| 0 <= i < self.items.len() ==> !((#[trigger] self.items[i]).1 is Unsupported)
    }
}

} // verus!
