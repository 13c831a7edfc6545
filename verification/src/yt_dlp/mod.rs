//! One polled source driven through the `yt-dlp` tool.

pub mod command;
pub mod config;
pub mod laws;
pub mod listing;
pub mod worker;

use vstd::prelude::*;

pub use config::ItemValue;
pub use config::YtDlpConfig;

verus! {

/// One source: its settings and the directory its downloads go under.
#[derive(Debug, Clone)]
pub struct YtDlpModule {
    config: YtDlpConfig,
    root_dir: String,
}

impl YtDlpModule {
    /// The settings of this source.
    pub closed spec fn spec_config(&self) -> YtDlpConfig {
        self.config
    }

    /// The directory this source's downloads go under.
    pub closed spec fn spec_root_dir(&self) -> Seq<char> {
        self.root_dir@
    }

    /// A source with the given settings, downloading under `root_dir`.
    pub fn new(config: YtDlpConfig, root_dir: String) -> (module: Self)
        ensures
            module.spec_config() == config,
            module.spec_root_dir() == root_dir@,
    {
        Self { config, root_dir }
    }

    /// The settings of this source.
    pub fn config(&self) -> (config: &YtDlpConfig)
        ensures
            *config == self.spec_config(),
    {
        &self.config
    }

    /// The directory this source's downloads go under.
    pub fn root_dir(&self) -> (root_dir: &String)
        ensures
            root_dir@ == self.spec_root_dir(),
    {
        &self.root_dir
    }
}

} // verus!
