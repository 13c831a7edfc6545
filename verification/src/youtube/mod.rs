//! The source that polls YouTube channels.

use vstd::prelude::*;

use crate::text::opt_text;
use crate::yt_dlp::config::distinct;
use crate::yt_dlp::config::names;
use crate::yt_dlp::config::ItemValue;
use crate::yt_dlp::config::YtDlpConfig;
use crate::yt_dlp::YtDlpModule;

verus! {

/// The name under which the YouTube source records and gives notice.
pub const SOURCE_NAME: &'static str = "youtube";

/// The name by which the YouTube source is shown.
pub const DISPLAY_NAME: &'static str = "YouTube";

/// Configuration of the YouTube source.
#[derive(Debug, Clone)]
pub struct YouTubeConfig {
    /// Interval in minutes between checks.
    pub interval: u64,
    /// Amount of videos to query.
    pub limit: Option<u64>,
    /// Channels to check, by name, in configured order. In a configuration
    /// read from a file no name occurs twice: see [`YouTubeConfig::distinct_names`].
    pub channels: Vec<(String, ItemValue)>,
    /// Format of the thumbnail.
    pub thumbnail_format: Option<String>,
    /// Output template for `yt-dlp`.
    pub output_format: Option<String>,
    /// Download description.
    pub write_description: Option<bool>,
    /// Download `info.json`.
    pub write_info_json: Option<bool>,
    /// Download comments.
    pub write_comments: Option<bool>,
    /// Download thumbnail.
    pub write_thumbnail: Option<bool>,
    /// Download subtitles.
    pub write_subs: Option<bool>,
    /// Embed subtitles.
    pub embed_subs: Option<bool>,
    /// Embed thumbnail.
    pub embed_thumbnail: Option<bool>,
    /// Embed metadata.
    pub embed_metadata: Option<bool>,
    /// Embed chapters.
    pub embed_chapters: Option<bool>,
    /// Embed `info.json`.
    pub embed_info_json: Option<bool>,
    /// Split by chapter.
    pub split_chapters: Option<bool>,
    /// Format selection.
    pub format: Option<String>,
    /// Cookie file.
    pub cookie: Option<String>,
    /// Webhooks for notifications.
    pub webhooks: Option<Vec<String>>,
}

impl YouTubeConfig {
    /// The channels are named as the keys of a table are: no channel name
    /// occurs twice, and within a category no member name does.
    pub open spec fn distinct_names(&self) -> bool {
        &&& distinct(names(self.channels@))
        &&& forall|i: int|
            0 <= i < self.channels.len() ==> (#[trigger] self.channels[i]).1.distinct_members()
    }

    /// Whether `settings` are the settings under which this configuration
    /// is polled: the source is named `youtube`, descriptions and thumbnails
    /// are written unless switched off, audio is never extracted alone and no
    /// audio format is asked for; everything else is taken over as configured.
    pub open spec fn polled_as(&self, settings: YtDlpConfig) -> bool {
        &&& opt_text(settings.name) == Some(SOURCE_NAME@)
        &&& settings.interval == self.interval
        &&& settings.limit == self.limit
        &&& settings.items == self.channels
        &&& settings.thumbnail_format == self.thumbnail_format
        &&& settings.output_format == self.output_format
        &&& settings.write_description == Some(self.write_description.unwrap_or(true))
        &&& settings.write_info_json == self.write_info_json
        &&& settings.write_comments == self.write_comments
        &&& settings.write_thumbnail == Some(self.write_thumbnail.unwrap_or(true))
        &&& settings.write_subs == self.write_subs
        &&& settings.audio_only == Some(false)
        &&& settings.audio_format is None
        &&& settings.embed_subs == self.embed_subs
        &&& settings.embed_thumbnail == self.embed_thumbnail
        &&& settings.embed_metadata == self.embed_metadata
        &&& settings.embed_chapters == self.embed_chapters
        &&& settings.embed_info_json == self.embed_info_json
        &&& settings.split_chapters == self.split_chapters
        &&& settings.format == self.format
        &&& settings.cookie == self.cookie
        &&& settings.webhooks == self.webhooks
    }
}

/// **The settings keep the channels' names apart.** Where no channel name
/// occurs twice in the configuration, none does among the items that are polled.
pub proof fn names_stay_distinct(config: YouTubeConfig, settings: YtDlpConfig)
    requires
        config.polled_as(settings),
        config.distinct_names(),
    ensures
        settings.distinct_names(),
{
}

/// The YouTube source.
#[derive(Debug, Clone)]
pub struct YouTubeModule {
    yt_dlp: YtDlpModule,
}

impl YouTubeModule {
    /// The source through which the channels are polled.
    pub closed spec fn spec_inner(&self) -> YtDlpModule {
        self.yt_dlp
    }

    /// The YouTube source with the given configuration, downloading under `root_dir`.
    pub fn new(config: YouTubeConfig, root_dir: String) -> (module: Self)
        ensures
            config.polled_as(module.spec_inner().spec_config()),
            module.spec_inner().spec_root_dir() == root_dir@,
    {
        let write_description = match config.write_description {
            Some(on) => on,
            None => true,
        };
        let write_thumbnail = match config.write_thumbnail {
            Some(on) => on,
            None => true,
        };
        let settings = YtDlpConfig {
            name: Some(SOURCE_NAME.to_owned()),
            interval: config.interval,
            limit: config.limit,
            items: config.channels,
            thumbnail_format: config.thumbnail_format,
            output_format: config.output_format,
            write_description: Some(write_description),
            write_info_json: config.write_info_json,
            write_comments: config.write_comments,
            write_thumbnail: Some(write_thumbnail),
            write_subs: config.write_subs,
            audio_only: Some(false),
            audio_format: None,
            embed_subs: config.embed_subs,
            embed_thumbnail: config.embed_thumbnail,
            embed_metadata: config.embed_metadata,
            embed_chapters: config.embed_chapters,
            embed_info_json: config.embed_info_json,
            split_chapters: config.split_chapters,
            format: config.format,
            cookie: config.cookie,
            webhooks: config.webhooks,
        };
        YouTubeModule { yt_dlp: YtDlpModule::new(settings, root_dir) }
    }

    /// The name by which this source is shown.
    pub fn name(&self) -> (name: String)
        ensures
            name@ == DISPLAY_NAME@,
    {
        DISPLAY_NAME.to_owned()
    }

    /// The source through which the channels are polled.
    pub fn inner(&self) -> (inner: &YtDlpModule)
        ensures
            *inner == self.spec_inner(),
    {
        &self.yt_dlp
    }
}

} // verus!
