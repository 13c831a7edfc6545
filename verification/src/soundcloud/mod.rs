//! The source that polls SoundCloud artists.

use vstd::prelude::*;

use crate::text::opt_text;
use crate::yt_dlp::config::distinct;
use crate::yt_dlp::config::names;
use crate::yt_dlp::config::ItemValue;
use crate::yt_dlp::config::YtDlpConfig;
use crate::yt_dlp::YtDlpModule;

verus! {

/// The name under which the SoundCloud source records and gives notice.
pub const SOURCE_NAME: &'static str = "soundcloud";

/// The name by which the SoundCloud source is shown.
pub const DISPLAY_NAME: &'static str = "SoundCloud";

/// The format in which covers are kept.
pub const COVER_FORMAT: &'static str = "jpg";

/// Configuration of the SoundCloud source.
#[derive(Debug, Clone)]
pub struct SoundCloudConfig {
    /// Interval in minutes between checks.
    pub interval: u64,
    /// Amount of items to query.
    pub limit: Option<u64>,
    /// Artists to check: name and locator, in configured order. In a
    /// configuration read from a file no name occurs twice: see
    /// [`SoundCloudConfig::distinct_names`].
    pub artists: Vec<(String, String)>,
    /// Output template for `yt-dlp`.
    pub output_format: Option<String>,
    /// Download comments.
    pub write_comments: Option<bool>,
    /// Download description.
    pub write_description: Option<bool>,
    /// Download cover.
    pub write_cover: Option<bool>,
    /// Download subtitles.
    pub write_subs: Option<bool>,
    /// Audio format.
    pub audio_format: Option<String>,
    /// Embed thumbnail.
    pub embed_thumbnail: Option<bool>,
    /// Embed metadata.
    pub embed_metadata: Option<bool>,
    /// Embed chapters.
    pub embed_chapters: Option<bool>,
    /// Embed `info.json`.
    pub embed_info_json: Option<bool>,
    /// Split by chapter.
    pub split_chapters: Option<bool>,
    /// Format selection.
    pub format: Option<String>,
    /// Cookie file.
    pub cookie: Option<String>,
}

/// Artists as items to poll: each a single item under the artist's name.
pub open spec fn as_items(artists: Seq<(String, String)>) -> Seq<(String, ItemValue)> {
    Seq::new(artists.len(), |i: int| (artists[i].0, ItemValue::Url(artists[i].1)))
}

impl SoundCloudConfig {
    /// The artists are named as the keys of a table are: no name occurs twice.
    pub open spec fn distinct_names(&self) -> bool {
        distinct(names(self.artists@))
    }

    /// Whether `settings` are the settings under which this configuration
    /// is polled: the source is named `soundcloud`, every artist is one item,
    /// audio alone is extracted, covers are always written and kept as `jpg`,
    /// `info.json` is never written and subtitles are never embedded;
    /// descriptions are written and thumbnail, metadata, chapters and
    /// `info.json` are embedded unless switched off; there are no webhooks;
    /// everything else is taken over as configured.
    pub open spec fn polled_as(&self, settings: YtDlpConfig) -> bool {
        &&& opt_text(settings.name) == Some(SOURCE_NAME@)
        &&& settings.interval == self.interval
        &&& settings.limit == self.limit
        &&& settings.items@ == as_items(self.artists@)
        &&& opt_text(settings.thumbnail_format) == Some(COVER_FORMAT@)
        &&& settings.output_format == self.output_format
        &&& settings.write_description == Some(self.write_description.unwrap_or(true))
        &&& settings.write_info_json == Some(false)
        &&& settings.write_comments == self.write_comments
        &&& settings.write_thumbnail == Some(true)
        &&& settings.write_subs == self.write_subs
        &&& settings.audio_only == Some(true)
        &&& settings.audio_format == self.audio_format
        &&& settings.embed_subs == Some(false)
        &&& settings.embed_thumbnail == Some(self.embed_thumbnail.unwrap_or(true))
        &&& settings.embed_metadata == Some(self.embed_metadata.unwrap_or(true))
        &&& settings.embed_chapters == Some(self.embed_chapters.unwrap_or(true))
        &&& settings.embed_info_json == Some(self.embed_info_json.unwrap_or(true))
        &&& settings.split_chapters == self.split_chapters
        &&& settings.format == self.format
        &&& settings.cookie == self.cookie
        &&& settings.webhooks is None
    }
}

/// **The settings keep the artists' names apart.** Every artist is polled
/// as a single item under the artist's own name; where no name occurs twice
/// in the configuration, none does among the items that are polled.
pub proof fn names_stay_distinct(config: SoundCloudConfig, settings: YtDlpConfig)
    requires
        config.polled_as(settings),
        config.distinct_names(),
    ensures
        settings.distinct_names(),
        settings.supported(),
        forall|i: int| 0 <= i < settings.items.len() ==> (#[trigger] settings.items[i]).1 is Url,
{
    assert(names(settings.items@) =~= names(config.artists@));
}

/// The setting, or `true` where none is made.
fn on_unless_off(setting: Option<bool>) -> (on: bool)
    ensures
        on == setting.unwrap_or(true),
{
    match setting {
        Some(on) => on,
        None => true,
    }
}

/// The SoundCloud source.
#[derive(Debug, Clone)]
pub struct SoundCloudModule {
    yt_dlp: YtDlpModule,
}

impl SoundCloudModule {
    /// The source through which the artists are polled.
    pub closed spec fn spec_inner(&self) -> YtDlpModule {
        self.yt_dlp
    }

    /// The SoundCloud source with the given configuration, downloading under `root_dir`.
    pub fn new(config: SoundCloudConfig, root_dir: String) -> (module: Self)
        ensures
            config.polled_as(module.spec_inner().spec_config()),
            module.spec_inner().spec_root_dir() == root_dir@,
    {
        let mut items: Vec<(String, ItemValue)> = Vec::new();
        let mut i: usize = 0;
        while i < config.artists.len()
            invariant
                i <= config.artists.len(),
                items.len() == i,
                forall|k: int| 0 <= k < i ==> items[k] == as_items(config.artists@)[k],
            decreases config.artists.len() - i,
        {
            let artist = &config.artists[i];
            items.push((artist.0.clone(), ItemValue::Url(artist.1.clone())));
            i = i + 1;
        }
        assert(items@ =~= as_items(config.artists@));
        let settings = YtDlpConfig {
            name: Some(SOURCE_NAME.to_owned()),
            interval: config.interval,
            limit: config.limit,
            items,
            thumbnail_format: Some(COVER_FORMAT.to_owned()),
            output_format: config.output_format,
            write_description: Some(on_unless_off(config.write_description)),
            write_info_json: Some(false),
            write_comments: config.write_comments,
            write_thumbnail: Some(true),
            write_subs: config.write_subs,
            audio_only: Some(true),
            audio_format: config.audio_format,
            embed_subs: Some(false),
            embed_thumbnail: Some(on_unless_off(config.embed_thumbnail)),
            embed_metadata: Some(on_unless_off(config.embed_metadata)),
            embed_chapters: Some(on_unless_off(config.embed_chapters)),
            embed_info_json: Some(on_unless_off(config.embed_info_json)),
            split_chapters: config.split_chapters,
            format: config.format,
            cookie: config.cookie,
            webhooks: None,
        };
        SoundCloudModule { yt_dlp: YtDlpModule::new(settings, root_dir) }
    }

    /// The name by which this source is shown.
    pub fn name(&self) -> (name: String)
        ensures
            name@ == DISPLAY_NAME@,
    {
        DISPLAY_NAME.to_owned()
    }

    /// The source through which the artists are polled.
    pub fn inner(&self) -> (inner: &YtDlpModule)
        ensures
            *inner == self.spec_inner(),
    {
        &self.yt_dlp
    }
}

} // verus!
