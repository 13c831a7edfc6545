use hoard::config::GlobalConfig;
use hoard::config::HoardConfig;
use hoard::config::Source;
use hoard::soundcloud::SoundCloudConfig;
use hoard::soundcloud::SoundCloudModule;
use hoard::youtube::YouTubeConfig;
use hoard::youtube::YouTubeModule;
use hoard::yt_dlp::ItemValue;
use hoard::yt_dlp::YtDlpConfig;

fn youtube() -> YouTubeConfig {
    YouTubeConfig {
        interval: 60,
        limit: Some(5),
        channels: vec![("ch".to_string(), ItemValue::Url("loc".to_string()))],
        thumbnail_format: Some("png".to_string()),
        output_format: Some("%(id)s".to_string()),
        write_description: None,
        write_info_json: Some(true),
        write_comments: None,
        write_thumbnail: Some(false),
        write_subs: Some(true),
        embed_subs: None,
        embed_thumbnail: Some(false),
        embed_metadata: None,
        embed_chapters: None,
        embed_info_json: None,
        split_chapters: Some(true),
        format: Some("best".to_string()),
        cookie: Some("c.txt".to_string()),
        webhooks: Some(vec!["http://hook".to_string()]),
    }
}

fn soundcloud() -> SoundCloudConfig {
    SoundCloudConfig {
        interval: 15,
        limit: None,
        artists: vec![
            ("one".to_string(), "loc1".to_string()),
            ("two".to_string(), "loc2".to_string()),
        ],
        output_format: None,
        write_comments: Some(true),
        write_description: Some(false),
        write_cover: Some(false),
        write_subs: None,
        audio_format: Some("opus".to_string()),
        embed_thumbnail: None,
        embed_metadata: Some(false),
        embed_chapters: None,
        embed_info_json: Some(false),
        split_chapters: None,
        format: None,
        cookie: None,
    }
}

fn further(name: Option<&str>) -> YtDlpConfig {
    YtDlpConfig {
        name: name.map(|n| n.to_string()),
        interval: 1,
        limit: None,
        items: Vec::new(),
        thumbnail_format: None,
        output_format: None,
        write_description: None,
        write_info_json: None,
        write_comments: None,
        write_thumbnail: None,
        write_subs: None,
        audio_only: None,
        audio_format: None,
        embed_subs: None,
        embed_thumbnail: None,
        embed_metadata: None,
        embed_chapters: None,
        embed_info_json: None,
        split_chapters: None,
        format: None,
        cookie: None,
        webhooks: None,
    }
}

#[test]
fn youtube_settings() {
    let module = YouTubeModule::new(youtube(), "data/youtube".to_string());
    assert_eq!(module.name(), "YouTube");
    let inner = module.inner();
    assert_eq!(inner.name(), "youtube");
    assert_eq!(inner.root_dir(), "data/youtube");
    let c = inner.config();
    assert_eq!(c.interval, 60);
    assert_eq!(c.limit, Some(5));
    assert_eq!(c.items.len(), 1);
    assert_eq!(c.thumbnail_format.as_deref(), Some("png"));
    assert_eq!(c.output_format.as_deref(), Some("%(id)s"));
    assert_eq!(c.write_description, Some(true));
    assert_eq!(c.write_info_json, Some(true));
    assert_eq!(c.write_comments, None);
    assert_eq!(c.write_thumbnail, Some(false));
    assert_eq!(c.write_subs, Some(true));
    assert_eq!(c.audio_only, Some(false));
    assert_eq!(c.audio_format, None);
    assert_eq!(c.embed_subs, None);
    assert_eq!(c.embed_thumbnail, Some(false));
    assert_eq!(c.embed_metadata, None);
    assert_eq!(c.split_chapters, Some(true));
    assert_eq!(c.format.as_deref(), Some("best"));
    assert_eq!(c.cookie.as_deref(), Some("c.txt"));
    assert_eq!(c.webhooks, Some(vec!["http://hook".to_string()]));
}

#[test]
fn soundcloud_settings() {
    let module = SoundCloudModule::new(soundcloud(), "data/soundcloud".to_string());
    assert_eq!(module.name(), "SoundCloud");
    let inner = module.inner();
    assert_eq!(inner.name(), "soundcloud");
    let c = inner.config();
    assert_eq!(c.interval, 15);
    assert_eq!(c.limit, None);
    assert_eq!(c.thumbnail_format.as_deref(), Some("jpg"));
    assert_eq!(c.write_description, Some(false));
    assert_eq!(c.write_info_json, Some(false));
    assert_eq!(c.write_comments, Some(true));
    assert_eq!(c.write_thumbnail, Some(true));
    assert_eq!(c.audio_only, Some(true));
    assert_eq!(c.audio_format.as_deref(), Some("opus"));
    assert_eq!(c.embed_subs, Some(false));
    assert_eq!(c.embed_thumbnail, Some(true));
    assert_eq!(c.embed_metadata, Some(false));
    assert_eq!(c.embed_chapters, Some(true));
    assert_eq!(c.embed_info_json, Some(false));
    assert_eq!(c.webhooks, None);
    let targets: Vec<(String, String, String)> =
        inner.targets().into_iter().map(|t| (t.item, t.url, t.dir)).collect();
    assert_eq!(
        targets,
        vec![
            ("one".to_string(), "loc1".to_string(), "data/soundcloud/one".to_string()),
            ("two".to_string(), "loc2".to_string(), "data/soundcloud/two".to_string()),
        ]
    );
}

#[test]
fn sources_in_order_each_under_its_directory() {
    let config = GlobalConfig {
        hoard: HoardConfig { data_dir: "data".to_string() },
        youtube: Some(youtube()),
        soundcloud: Some(soundcloud()),
        yt_dlp: Some(vec![further(Some("extra")), further(None)]),
    };
    let sources = config.sources();
    assert_eq!(sources.len(), 4);
    match &sources[0] {
        Source::YouTube(module) => assert_eq!(module.inner().root_dir(), "data/youtube"),
        other => panic!("unexpected source {:?}", other),
    }
    match &sources[1] {
        Source::SoundCloud(module) => assert_eq!(module.inner().root_dir(), "data/soundcloud"),
        other => panic!("unexpected source {:?}", other),
    }
    match &sources[2] {
        Source::YtDlp(module) => {
            assert_eq!(module.root_dir(), "data/extra");
            assert_eq!(module.name(), "extra");
        }
        other => panic!("unexpected source {:?}", other),
    }
    match &sources[3] {
        Source::YtDlp(module) => {
            assert_eq!(module.root_dir(), "data/yt_dlp");
            assert_eq!(module.name(), "yt-dlp");
        }
        other => panic!("unexpected source {:?}", other),
    }
}

#[test]
fn sources_that_are_not_configured_are_left_out() {
    let config = GlobalConfig {
        hoard: HoardConfig { data_dir: "data".to_string() },
        youtube: None,
        soundcloud: Some(soundcloud()),
        yt_dlp: None,
    };
    let sources = config.sources();
    assert_eq!(sources.len(), 1);
    assert!(matches!(sources[0], Source::SoundCloud(_)));
    let config = GlobalConfig {
        hoard: HoardConfig { data_dir: "data".to_string() },
        youtube: None,
        soundcloud: None,
        yt_dlp: Some(Vec::new()),
    };
    assert!(config.sources().is_empty());
}
