//! The configuration of the whole program, and the sources it sets up.

use vstd::prelude::*;

use crate::soundcloud::SoundCloudConfig;
use crate::soundcloud::SoundCloudModule;
use crate::text::nest;
use crate::text::nested;
use crate::youtube::YouTubeConfig;
use crate::youtube::YouTubeModule;
use crate::yt_dlp::command::text_or;
use crate::yt_dlp::config::YtDlpConfig;
use crate::yt_dlp::YtDlpModule;

verus! {

/// The directory of the YouTube source under the data directory.
pub const YOUTUBE_DIR: &'static str = "youtube";

/// The directory of the SoundCloud source under the data directory.
pub const SOUNDCLOUD_DIR: &'static str = "soundcloud";

/// The directory, under the data directory, of a further source without a name.
pub const UNNAMED_DIR: &'static str = "yt_dlp";

/// General settings.
#[derive(Debug, Clone)]
pub struct HoardConfig {
    /// Top level data download directory.
    pub data_dir: String,
}

/// Top level global config.
#[derive(Debug, Clone)]
pub struct GlobalConfig {
    /// General settings.
    pub hoard: HoardConfig,
    /// Configuration of the YouTube source.
    pub youtube: Option<YouTubeConfig>,
    /// Configuration of the SoundCloud source.
    pub soundcloud: Option<SoundCloudConfig>,
    /// Further sources polled through `yt-dlp`.
    pub yt_dlp: Option<Vec<YtDlpConfig>>,
}

/// One configured source, ready to be polled.
#[derive(Debug, Clone)]
pub enum Source {
    YouTube(YouTubeModule),
    SoundCloud(SoundCloudModule),
    YtDlp(YtDlpModule),
}

impl Source {
    /// Whether this is the YouTube source for `config`, under `youtube` in `data_dir`.
    pub open spec fn is_youtube(self, config: YouTubeConfig, data_dir: Seq<char>) -> bool {
        &&& self matches Source::YouTube(module)
        &&& config.polled_as(module.spec_inner().spec_config())
        &&& module.spec_inner().spec_root_dir() == nested(data_dir, YOUTUBE_DIR@)
    }

    /// Whether this is the SoundCloud source for `config`, under `soundcloud`
    /// in `data_dir`.
    pub open spec fn is_soundcloud(self, config: SoundCloudConfig, data_dir: Seq<char>) -> bool {
        &&& self matches Source::SoundCloud(module)
        &&& config.polled_as(module.spec_inner().spec_config())
        &&& module.spec_inner().spec_root_dir() == nested(data_dir, SOUNDCLOUD_DIR@)
    }

    /// Whether this is the further source with the settings `config`, under
    /// its name in `data_dir`, or under `yt_dlp` where it has none.
    pub open spec fn is_further(self, config: YtDlpConfig, data_dir: Seq<char>) -> bool {
        &&& self matches Source::YtDlp(module)
        &&& module.spec_config() == config
        &&& module.spec_root_dir() == nested(data_dir, text_or(config.name, UNNAMED_DIR@))
    }
}

impl GlobalConfig {
    /// The further sources, none where none are configured.
    pub open spec fn further(&self) -> Seq<YtDlpConfig> {
        match self.yt_dlp {
            Some(list) => list@,
            None => Seq::empty(),
        }
    }

    /// The number of sources that come before the further ones.
    pub open spec fn fixed_sources(&self) -> int {
        (if self.youtube is Some {
            1int
        } else {
            0int
        }) + (if self.soundcloud is Some {
            1int
        } else {
            0int
        })
    }

    /// Whether `sources` are the sources that this configuration sets up:
    /// the YouTube source if it is configured; then the SoundCloud source if it
    /// is configured; then each further source in configured order.
    pub open spec fn sets_up(&self, sources: Seq<Source>) -> bool {
        let data_dir = self.hoard.data_dir@;
        let fixed = self.fixed_sources();
        &&& sources.len() == fixed + self.further().len()
        &&& self.youtube is Some ==> sources[0].is_youtube(self.youtube->0, data_dir)
        &&& self.soundcloud is Some ==> sources[fixed - 1].is_soundcloud(
            self.soundcloud->0,
            data_dir,
        )
        &&& forall|k: int|
            0 <= k < self.further().len() ==> (#[trigger] sources[fixed + k]).is_further(
                self.further()[k],
                data_dir,
            )
    }

    /// Sets up the configured sources, each with its own directory under the
    /// data directory.
    pub fn sources(self) -> (sources: Vec<Source>)
        ensures
            self.sets_up(sources@),
    {
        let mut sources: Vec<Source> = Vec::new();
        let data_dir = self.hoard.data_dir;
        if let Some(config) = self.youtube {
            let root = nest(data_dir.as_str(), YOUTUBE_DIR);
            sources.push(Source::YouTube(YouTubeModule::new(config, root)));
        }
        if let Some(config) = self.soundcloud {
            let root = nest(data_dir.as_str(), SOUNDCLOUD_DIR);
            sources.push(Source::SoundCloud(SoundCloudModule::new(config, root)));
        }
        let ghost fixed = self.fixed_sources();
        let ghost further = self.further();
        let ghost head = sources@;
        if let Some(list) = self.yt_dlp {
            let mut rest = list;
            let total = rest.len();
            let mut done: usize = 0;
            assert(rest@ =~= further.skip(0));
            while rest.len() > 0
                invariant
                    further.len() == total,
                    sources.len() == fixed + done,
                    head.len() == fixed,
                    sources@.take(fixed) == head,
                    rest@ == further.skip(done as int),
                    done <= further.len(),
                    forall|k: int|
                        0 <= k < done ==> (#[trigger] sources[fixed + k]).is_further(
                            further[k],
                            data_dir@,
                        ),
                decreases rest.len(),
            {
                let config = rest.remove(0);
                assert(config == further[done as int]);
                let root = match &config.name {
                    Some(name) => nest(data_dir.as_str(), name.as_str()),
                    None => nest(data_dir.as_str(), UNNAMED_DIR),
                };
                let ghost before = sources@;
                sources.push(Source::YtDlp(YtDlpModule::new(config, root)));
                assert forall|k: int| 0 <= k < done implies (#[trigger] sources[fixed + k])
                    == before[fixed + k] by {}
                assert(sources@.take(fixed) =~= before.take(fixed));
                assert(rest@ =~= further.skip(done + 1));
                done = done + 1;
            }
        }
        assert(sources@.take(fixed) == head);
        assert(fixed > 0 ==> sources[0] == head[0]);
        assert(fixed > 0 ==> sources[fixed - 1] == head[fixed - 1]);
        sources
    }
}

} // verus!
