use hoard::db::DatabaseBackend;
use hoard::db::Out;
use hoard::db::Query;
use hoard::yt_dlp::worker::Action;
use hoard::yt_dlp::worker::Event;
use hoard::yt_dlp::worker::Phase;
use hoard::yt_dlp::worker::Poll;
use hoard::yt_dlp::ItemValue;
use hoard::yt_dlp::YtDlpConfig;
use hoard::yt_dlp::YtDlpModule;

fn config(items: Vec<(String, ItemValue)>) -> YtDlpConfig {
    YtDlpConfig {
        name: None,
        interval: 30,
        limit: None,
        items,
        thumbnail_format: None,
        output_format: None,
        write_description: None,
        write_info_json: None,
        write_comments: None,
        write_thumbnail: None,
        write_subs: None,
        audio_only: None,
        audio_format: None,
        embed_subs: None,
        embed_thumbnail: None,
        embed_metadata: None,
        embed_chapters: None,
        embed_info_json: None,
        split_chapters: None,
        format: None,
        cookie: None,
        webhooks: None,
    }
}

fn flat(name: &str, url: &str) -> (String, ItemValue) {
    (name.to_string(), ItemValue::Url(url.to_string()))
}

fn dirs(module: &YtDlpModule) -> Vec<(String, String, String)> {
    module.targets().into_iter().map(|t| (t.item, t.url, t.dir)).collect()
}

/// What the lister prints and whether the retrieval goes well, by locator.
struct World {
    listings: Vec<(&'static str, Result<&'static [u8], &'static str>)>,
    failing: Vec<&'static str>,
    backend: DatabaseBackend,
    clock: i64,
    log: Vec<String>,
}

impl World {
    fn new(listings: Vec<(&'static str, Result<&'static [u8], &'static str>)>) -> World {
        World { listings, failing: Vec::new(), backend: DatabaseBackend::new("db"), clock: 0, log: Vec::new() }
    }

    fn perform(&mut self, action: Action) -> Event {
        match action {
            Action::List { args } => {
                let locator = args.last().unwrap().clone();
                self.log.push(format!("list {} limit {}", locator, args[6]));
                let found = self.listings.iter().find(|(name, _)| *name == locator).unwrap();
                match found.1 {
                    Ok(printed) => Event::Listed(Ok(printed.to_vec())),
                    Err(said) => Event::Listed(Err(said.to_string())),
                }
            }
            Action::Ask(query) => {
                match &query {
                    Query::InsertUrl(url) => self.log.push(format!("insert {}", url)),
                    Query::CheckForUrl(url) => self.log.push(format!("check {}", url)),
                    Query::UpdateNewDownloads(source, item, url) => {
                        self.log.push(format!("note {} {} {}", source, item, url))
                    }
                }
                self.clock += 1;
                Event::Answered(self.backend.handle(&query, self.clock))
            }
            Action::Retrieve { dir, args } => {
                let url = args.last().unwrap().clone();
                self.log.push(format!("retrieve {} into {}", url, dir));
                if self.failing.iter().any(|bad| *bad == url) {
                    Event::Retrieved(Err("exit status 1".to_string()))
                } else {
                    Event::Retrieved(Ok(()))
                }
            }
            Action::Notify { endpoints, notice } => {
                self.log.push(format!(
                    "notify {:?} {} {} {} {} {}",
                    endpoints, notice.module, notice.url, notice.title, notice.item, notice.success
                ));
                Event::Notified
            }
            Action::Sleep { minutes } => {
                self.log.push(format!("sleep {}", minutes));
                Event::Woke
            }
        }
    }

    /// Runs the worker until it wants to sleep; hands back the state asleep.
    fn cycle(&mut self, module: &YtDlpModule, mut poll: Poll, mut action: Action) -> (Poll, Action) {
        loop {
            if let Action::Sleep { .. } = action {
                return (poll, action);
            }
            let event = self.perform(action);
            let next = module.step(poll, event);
            poll = next.0;
            action = next.1;
        }
    }

    fn knows(&mut self, url: &str) -> bool {
        self.backend.handle(&Query::CheckForUrl(url.to_string()), 0).found()
    }
}

#[test]
fn category_expands_into_its_members() {
    let items = vec![(
        "music".to_string(),
        ItemValue::Category(vec![
            ("a".to_string(), "urlA".to_string()),
            ("b".to_string(), "urlB".to_string()),
        ]),
    )];
    let module = YtDlpModule::new(config(items), "root".to_string());
    assert_eq!(
        dirs(&module),
        vec![
            ("a".to_string(), "urlA".to_string(), "root/music/a".to_string()),
            ("b".to_string(), "urlB".to_string(), "root/music/b".to_string()),
        ]
    );
}

#[test]
fn flat_items_categories_and_other_values_in_configured_order() {
    let items = vec![
        flat("ch1", "u1"),
        ("skipped".to_string(), ItemValue::Other),
        ("empty".to_string(), ItemValue::Category(Vec::new())),
        ("cat".to_string(), ItemValue::Category(vec![("m".to_string(), "um".to_string())])),
        flat("ch2", "u2"),
    ];
    let module = YtDlpModule::new(config(items), "data/yt".to_string());
    assert_eq!(
        dirs(&module),
        vec![
            ("ch1".to_string(), "u1".to_string(), "data/yt/ch1".to_string()),
            ("m".to_string(), "um".to_string(), "data/yt/cat/m".to_string()),
            ("ch2".to_string(), "u2".to_string(), "data/yt/ch2".to_string()),
        ]
    );
}

#[test]
fn name_limit_and_endpoints_have_defaults() {
    let module = YtDlpModule::new(config(Vec::new()), "root".to_string());
    assert_eq!(module.name(), "yt-dlp");
    assert_eq!(module.limit(), 10);
    assert!(module.endpoints().is_empty());
    assert_eq!(module.root_dir(), "root");
    assert_eq!(module.config().interval, 30);
    let named = YtDlpConfig {
        name: Some("mine".to_string()),
        limit: Some(3),
        webhooks: Some(vec!["http://h/1".to_string(), "http://h/2".to_string()]),
        ..config(Vec::new())
    };
    let module = YtDlpModule::new(named, "root".to_string());
    assert_eq!(module.name(), "mine");
    assert_eq!(module.limit(), 3);
    assert_eq!(module.endpoints(), vec!["http://h/1", "http://h/2"]);
}

#[test]
fn worker_without_items_sleeps() {
    let module = YtDlpModule::new(config(Vec::new()), "root".to_string());
    let (poll, action) = module.begin();
    assert_eq!(poll.phase(), Phase::Sleeping);
    assert!(poll.current_target().is_none());
    assert!(matches!(action, Action::Sleep { minutes: 30 }));
    let (poll, action) = module.step(poll, Event::Woke);
    assert_eq!(poll.phase(), Phase::Sleeping);
    assert!(matches!(action, Action::Sleep { minutes: 30 }));
}

#[test]
fn limit_one_considers_only_the_first_entry() {
    let limited = YtDlpConfig { limit: Some(1), ..config(vec![flat("ch1", "loc1")]) };
    let module = YtDlpModule::new(limited, "root".to_string());
    let mut world = World::new(vec![("loc1", Ok(b"T1\nu1\nT2\nu2\n"))]);
    let (poll, action) = module.begin();
    let (poll, _) = world.cycle(&module, poll, action);
    assert_eq!(poll.phase(), Phase::Sleeping);
    assert_eq!(
        world.log,
        vec![
            "list loc1 limit 1",
            "check u1",
            "retrieve u1 into root/ch1",
            "insert u1",
            "note yt-dlp ch1 loc1",
            "notify [] yt-dlp u1 T1 ch1 true",
        ]
    );
    assert!(world.knows("u1"));
    assert!(!world.knows("u2"));
}

#[test]
fn failed_retrieval_is_not_recorded_and_is_retried_next_cycle() {
    let module = YtDlpModule::new(config(vec![flat("ch1", "loc1")]), "root".to_string());
    let mut world = World::new(vec![("loc1", Ok(b"T1\nu1\n"))]);
    world.failing.push("u1");
    let (poll, action) = module.begin();
    let (poll, action) = world.cycle(&module, poll, action);
    assert!(matches!(action, Action::Sleep { minutes: 30 }));
    assert_eq!(
        world.log,
        vec![
            "list loc1 limit 10",
            "check u1",
            "retrieve u1 into root/ch1",
            "notify [] yt-dlp u1 T1 ch1 false",
        ]
    );
    assert!(!world.knows("u1"));
    assert!(world.backend.store.item_log().is_empty());

    world.log.clear();
    world.failing.clear();
    let event = world.perform(action);
    let (poll, action) = module.step(poll, event);
    let (_, _) = world.cycle(&module, poll, action);
    assert_eq!(
        world.log,
        vec![
            "sleep 30",
            "list loc1 limit 10",
            "check u1",
            "retrieve u1 into root/ch1",
            "insert u1",
            "note yt-dlp ch1 loc1",
            "notify [] yt-dlp u1 T1 ch1 true",
        ]
    );
    assert!(world.knows("u1"));
}

#[test]
fn failure_of_one_entry_leaves_the_others_to_be_retrieved() {
    let items = vec![flat("A", "locA"), flat("B", "locB")];
    let hooked = YtDlpConfig { webhooks: Some(vec!["http://hook".to_string()]), ..config(items) };
    let module = YtDlpModule::new(hooked, "root".to_string());
    let mut world = World::new(vec![("locA", Ok(b"TA1\nuA1\nTA2\nuA2\n")), ("locB", Ok(b"TB\nuB\n"))]);
    world.failing.push("uA1");
    let (poll, action) = module.begin();
    world.cycle(&module, poll, action);
    assert_eq!(
        world.log,
        vec![
            "list locA limit 10",
            "check uA1",
            "retrieve uA1 into root/A",
            "notify [\"http://hook\"] yt-dlp uA1 TA1 A false",
            "check uA2",
            "retrieve uA2 into root/A",
            "insert uA2",
            "note yt-dlp A locA",
            "notify [\"http://hook\"] yt-dlp uA2 TA2 A true",
            "list locB limit 10",
            "check uB",
            "retrieve uB into root/B",
            "insert uB",
            "note yt-dlp B locB",
            "notify [\"http://hook\"] yt-dlp uB TB B true",
        ]
    );
    assert!(!world.knows("uA1"));
    assert!(world.knows("uA2"));
    assert!(world.knows("uB"));
}

#[test]
fn failed_listing_skips_only_its_item() {
    let items = vec![flat("A", "locA"), flat("B", "locB")];
    let module = YtDlpModule::new(config(items), "root".to_string());
    let mut world = World::new(vec![("locA", Err("ERROR: not found")), ("locB", Ok(b"TB\nuB\n"))]);
    let (poll, action) = module.begin();
    world.cycle(&module, poll, action);
    assert_eq!(world.log[0], "list locA limit 10");
    assert_eq!(world.log[1], "list locB limit 10");
    assert!(world.knows("uB"));
}

#[test]
fn known_entries_are_passed_over() {
    let module = YtDlpModule::new(config(vec![flat("ch1", "loc1")]), "root".to_string());
    let mut world = World::new(vec![("loc1", Ok(b"T1\nu1\nT2\nu2\n"))]);
    world.backend.handle(&Query::InsertUrl("u1".to_string()), 0);
    let (poll, action) = module.begin();
    world.cycle(&module, poll, action);
    assert_eq!(
        world.log,
        vec![
            "list loc1 limit 10",
            "check u1",
            "check u2",
            "retrieve u2 into root/ch1",
            "insert u2",
            "note yt-dlp ch1 loc1",
            "notify [] yt-dlp u2 T2 ch1 true",
        ]
    );
    assert_eq!(world.backend.store.urls().len(), 2);
}

#[test]
fn reply_that_answers_nothing_counts_as_not_retrieved() {
    let module = YtDlpModule::new(config(vec![flat("ch1", "loc1")]), "root".to_string());
    let (poll, _) = module.begin();
    let (poll, action) = module.step(poll, Event::Listed(Ok(b"T1\nu1\n".to_vec())));
    assert!(matches!(action, Action::Ask(Query::CheckForUrl(_))));
    let (poll, action) = module.step(poll, Event::Answered(Out::Done));
    assert_eq!(poll.phase(), Phase::Retrieving);
    match action {
        Action::Retrieve { dir, args } => {
            assert_eq!(dir, "root/ch1");
            assert_eq!(args, module.download_args("u1"));
        }
        other => panic!("unexpected action {:?}", other),
    }
}

#[test]
fn event_that_answers_nothing_changes_nothing() {
    let module = YtDlpModule::new(config(vec![flat("ch1", "loc1")]), "root".to_string());
    let (poll, first) = module.begin();
    assert_eq!(poll.phase(), Phase::Listing);
    let (poll, again) = module.step(poll, Event::Notified);
    assert_eq!(poll.phase(), Phase::Listing);
    match (first, again) {
        (Action::List { args: a }, Action::List { args: b }) => assert_eq!(a, b),
        other => panic!("unexpected actions {:?}", other),
    }
    let (poll, _) = module.step(poll, Event::Woke);
    assert_eq!(poll.phase(), Phase::Listing);
    let (poll, _) = module.step(poll, Event::Listed(Ok(b"T1\nu1\n".to_vec())));
    let (poll, _) = module.step(poll, Event::Retrieved(Ok(())));
    assert_eq!(poll.phase(), Phase::Checking);
    assert_eq!(poll.current_entry().unwrap().url, "u1");
    assert_eq!(poll.current_target().unwrap().item, "ch1");
}

#[test]
fn phases_follow_one_another() {
    let module = YtDlpModule::new(config(vec![flat("ch1", "loc1")]), "root".to_string());
    let (poll, _) = module.begin();
    let (poll, _) = module.step(poll, Event::Listed(Ok(b"T1\nu1\n".to_vec())));
    assert_eq!(poll.phase(), Phase::Checking);
    let (poll, _) = module.step(poll, Event::Answered(Out::Bool(false)));
    assert_eq!(poll.phase(), Phase::Retrieving);
    let (poll, action) = module.step(poll, Event::Retrieved(Ok(())));
    assert_eq!(poll.phase(), Phase::RecordingUrl);
    assert!(matches!(action, Action::Ask(Query::InsertUrl(ref url)) if url == "u1"));
    let (poll, action) = module.step(poll, Event::Answered(Out::Done));
    assert_eq!(poll.phase(), Phase::RecordingItem);
    assert!(matches!(action, Action::Ask(Query::UpdateNewDownloads(_, _, _))));
    let (poll, action) = module.step(poll, Event::Answered(Out::Done));
    assert_eq!(poll.phase(), Phase::Notifying { success: true });
    assert!(matches!(action, Action::Notify { .. }));
    let (poll, action) = module.step(poll, Event::Notified);
    assert_eq!(poll.phase(), Phase::Sleeping);
    assert!(matches!(action, Action::Sleep { minutes: 30 }));
    assert!(poll.current_entry().is_none());
}

#[test]
fn webhook_notice_carries_the_retrieval() {
    let hooked = YtDlpConfig {
        name: Some("youtube".to_string()),
        webhooks: Some(vec!["http://hook".to_string()]),
        ..config(Vec::new())
    };
    let module = YtDlpModule::new(hooked, "root".to_string());
    match module.webhook_notify("u", "T", "item", false) {
        Action::Notify { endpoints, notice } => {
            assert_eq!(endpoints, vec!["http://hook"]);
            assert_eq!(notice.module, "youtube");
            assert_eq!(notice.url, "u");
            assert_eq!(notice.title, "T");
            assert_eq!(notice.item, "item");
            assert!(!notice.success);
        }
        other => panic!("unexpected action {:?}", other),
    }
}

#[test]
fn source_with_an_unsupported_item_is_not_supported() {
    let fine = YtDlpModule::new(
        config(vec![flat("a", "u"), ("o".to_string(), ItemValue::Other)]),
        "root".to_string(),
    );
    assert!(fine.supported());
    assert!(YtDlpModule::new(config(Vec::new()), "root".to_string()).supported());
    let broken = YtDlpModule::new(
        config(vec![flat("a", "u"), ("list".to_string(), ItemValue::Unsupported)]),
        "root".to_string(),
    );
    assert!(!broken.supported());
}

#[test]
fn names_that_do_not_repeat_are_polled_once_each() {
    let items = vec![
        flat("a", "ua"),
        flat("b", "ub"),
        (
            "cat".to_string(),
            ItemValue::Category(vec![
                ("a".to_string(), "uca".to_string()),
                ("c".to_string(), "ucc".to_string()),
            ]),
        ),
    ];
    let module = YtDlpModule::new(config(items), "root".to_string());
    let targets = dirs(&module);
    assert_eq!(targets.len(), 4);
    let mut places: Vec<&str> = targets.iter().map(|t| t.2.as_str()).collect();
    places.sort();
    places.dedup();
    assert_eq!(places, vec!["root/a", "root/b", "root/cat/a", "root/cat/c"]);
    let flat_only = YtDlpModule::new(config(vec![flat("a", "ua"), flat("b", "ub")]), "r".to_string());
    let names: Vec<String> = flat_only.targets().into_iter().map(|t| t.item).collect();
    assert_eq!(names, vec!["a", "b"]);
}
