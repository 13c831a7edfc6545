//! The poll cycle of one source, as a machine that is told what happened and
//! says what to do next.
//!
//! A cycle lists every configured item in turn. For each listed entry it asks
//! the store whether the entry's locator was retrieved; if not, it has the
//! entry retrieved, records it on success, and gives notice of the outcome.
//! When every item is done the worker sleeps, and the next cycle begins when
//! it wakes. The machine performs nothing itself: [`YtDlpModule::begin`] and
//! [`YtDlpModule::step`] hand out an [`Action`], and whoever runs the worker
//! comes back with the [`Event`] that the action led to.

use vstd::prelude::*;

use crate::db::Out;
use crate::db::Query;
use crate::db::QueryView;
use crate::text::nest;
use crate::text::nested;
use crate::text::texts;
use crate::yt_dlp::command::list_args;
use crate::yt_dlp::command::text_or;
use crate::yt_dlp::command::DEFAULT_LIMIT;
use crate::yt_dlp::config::ItemValue;
use crate::yt_dlp::listing::entry_views;
use crate::yt_dlp::listing::listed;
use crate::yt_dlp::listing::parse_entries;
use crate::yt_dlp::listing::Entry;
use crate::yt_dlp::listing::EntryView;
use crate::yt_dlp::YtDlpModule;

verus! {

/// The name under which a source without a configured name goes.
pub const DEFAULT_NAME: &'static str = "yt-dlp";

/// One item to poll: its name, its locator, and the directory its entries go to.
#[derive(Debug, Clone)]
pub struct Target {
    pub item: String,
    pub url: String,
    pub dir: String,
}

/// The mathematical value of a [`Target`].
pub struct TargetView {
    pub item: Seq<char>,
    pub url: Seq<char>,
    pub dir: Seq<char>,
}

impl View for Target {
    type V = TargetView;

    open spec fn view(&self) -> TargetView {
        TargetView { item: self.item@, url: self.url@, dir: self.dir@ }
    }
}

/// The values of a list of targets, in order.
pub open spec fn target_views(targets: Seq<Target>) -> Seq<TargetView> {
    Seq::new(targets.len(), |i: int| targets[i]@)
}

/// The targets of a category: one for each member, in a directory of its own
/// under the category's.
pub open spec fn member_targets(
    root: Seq<char>,
    category: Seq<char>,
    members: Seq<(String, String)>,
) -> Seq<TargetView> {
    Seq::new(
        members.len(),
        |i: int|
            TargetView {
                item: members[i].0@,
                url: members[i].1@,
                dir: nested(nested(root, category), members[i].0@),
            },
    )
}

/// The targets that stand under one configured name.
pub open spec fn item_targets(root: Seq<char>, name: Seq<char>, value: ItemValue) -> Seq<
    TargetView,
> {
    match value {
        ItemValue::Url(url) => seq![TargetView { item: name, url: url@, dir: nested(root, name) }],
        ItemValue::Category(members) => member_targets(root, name, members@),
        ItemValue::Other => Seq::empty(),
        ItemValue::Unsupported => Seq::empty(),
    }
}

/// The targets of a list of configured items, in configured order.
pub open spec fn expanded(root: Seq<char>, items: Seq<(String, ItemValue)>) -> Seq<TargetView>
    decreases items.len(),
{
    if items.len() == 0 {
        Seq::empty()
    } else {
        expanded(root, items.drop_last()) + item_targets(root, items.last().0@, items.last().1)
    }
}

/// What is sent to the webhooks about one retrieval.
#[derive(Debug, Clone)]
pub struct Notification {
    pub module: String,
    pub url: String,
    pub title: String,
    pub item: String,
    pub success: bool,
}

/// The mathematical value of a [`Notification`].
pub struct NotificationView {
    pub module: Seq<char>,
    pub url: Seq<char>,
    pub title: Seq<char>,
    pub item: Seq<char>,
    pub success: bool,
}

impl View for Notification {
    type V = NotificationView;

    open spec fn view(&self) -> NotificationView {
        NotificationView {
            module: self.module@,
            url: self.url@,
            title: self.title@,
            item: self.item@,
            success: self.success,
        }
    }
}

/// What the worker wants done.
#[derive(Debug, Clone)]
pub enum Action {
    /// Run the lister with these arguments.
    List { args: Vec<String> },
    /// Send this request to the store and wait for the reply.
    Ask(Query),
    /// Run the retrieval in the directory `dir`, which is made first if it
    /// is not there, with these arguments.
    Retrieve { dir: String, args: Vec<String> },
    /// Send this notice to each of the endpoints.
    Notify { endpoints: Vec<String>, notice: Notification },
    /// Sleep for so many minutes.
    Sleep { minutes: u64 },
}

/// The mathematical value of an [`Action`].
pub enum ActionView {
    List { args: Seq<Seq<char>> },
    Ask(QueryView),
    Retrieve { dir: Seq<char>, args: Seq<Seq<char>> },
    Notify { endpoints: Seq<Seq<char>>, notice: NotificationView },
    Sleep { minutes: u64 },
}

impl View for Action {
    type V = ActionView;

    open spec fn view(&self) -> ActionView {
        match self {
            Action::List { args } => ActionView::List { args: texts(args@) },
            Action::Ask(query) => ActionView::Ask(query@),
            Action::Retrieve { dir, args } => ActionView::Retrieve {
                dir: dir@,
                args: texts(args@),
            },
            Action::Notify { endpoints, notice } => ActionView::Notify {
                endpoints: texts(endpoints@),
                notice: notice@,
            },
            Action::Sleep { minutes } => ActionView::Sleep { minutes: *minutes },
        }
    }
}

/// What came of the worker's last action.
#[derive(Debug)]
pub enum Event {
    /// The sleep is over.
    Woke,
    /// The lister ended: with what it printed, or with what there is to say
    /// about its failure.
    Listed(Result<Vec<u8>, String>),
    /// The store replied.
    Answered(Out),
    /// The retrieval ended: well, or with what there is to say about its failure.
    Retrieved(Result<(), String>),
    /// The notice was given, or it was tried.
    Notified,
}

/// The mathematical value of an [`Event`]. What there is to say about a
/// failure is for the log and plays no part in what the worker does.
pub enum EventView {
    Woke,
    Listed(Option<Seq<u8>>),
    Answered(Out),
    Retrieved(bool),
    Notified,
}

impl View for Event {
    type V = EventView;

    open spec fn view(&self) -> EventView {
        match self {
            Event::Woke => EventView::Woke,
            Event::Listed(Ok(printed)) => EventView::Listed(Some(printed@)),
            Event::Listed(Err(_)) => EventView::Listed(None),
            Event::Answered(out) => EventView::Answered(*out),
            Event::Retrieved(outcome) => EventView::Retrieved(outcome is Ok),
            Event::Notified => EventView::Notified,
        }
    }
}

/// Where in its cycle a worker stands, by the action it waits on.
#[derive(Debug, Clone, Copy, PartialEq, Eq, Structural)]
pub enum Phase {
    /// The lister runs on the current item.
    Listing,
    /// The store is asked whether the current entry was retrieved.
    Checking,
    /// The current entry is being retrieved.
    Retrieving,
    /// The store is told that the current entry was retrieved.
    RecordingUrl,
    /// The store is told that the current item was checked.
    RecordingItem,
    /// Notice is given of how the retrieval of the current entry went.
    Notifying { success: bool },
    /// All items are done; the worker sleeps.
    Sleeping,
}

/// The mathematical value of a [`Poll`].
pub struct PollView {
    /// Where the worker stands.
    pub phase: Phase,
    /// The items of the source.
    pub targets: Seq<TargetView>,
    /// The place of the current item among them.
    pub target: int,
    /// The entries listed for the current item.
    pub entries: Seq<EntryView>,
    /// The place of the current entry among them.
    pub entry: int,
}

impl PollView {
    /// The current item and entry exist wherever the phase speaks of them,
    /// and nothing is left over from an earlier item where it does not.
    pub open spec fn wf(self) -> bool {
        match self.phase {
            Phase::Sleeping => self.target == self.targets.len() && self.entries.len() == 0
                && self.entry == 0,
            Phase::Listing => 0 <= self.target < self.targets.len() && self.entries.len() == 0
                && self.entry == 0,
            _ => 0 <= self.target < self.targets.len() && 0 <= self.entry < self.entries.len(),
        }
    }

    /// The worker set to list the item at place `target`, or to sleep where
    /// there is no such item.
    pub open spec fn at_target(self, target: int) -> PollView {
        if 0 <= target < self.targets.len() {
            PollView { phase: Phase::Listing, target, entries: Seq::empty(), entry: 0, ..self }
        } else {
            PollView {
                phase: Phase::Sleeping,
                target: self.targets.len() as int,
                entries: Seq::empty(),
                entry: 0,
                ..self
            }
        }
    }

    /// The worker set to check the entry at place `entry` of the current
    /// item, or moved on to the next item where there is no such entry.
    pub open spec fn at_entry(self, entry: int) -> PollView {
        if 0 <= entry < self.entries.len() {
            PollView { phase: Phase::Checking, entry, ..self }
        } else {
            self.at_target(self.target + 1)
        }
    }
}

/// The state of one worker within its cycle.
#[derive(Debug)]
pub struct Poll {
    phase: Phase,
    targets: Vec<Target>,
    target: usize,
    entries: Vec<Entry>,
    entry: usize,
}

impl View for Poll {
    type V = PollView;

    closed spec fn view(&self) -> PollView {
        PollView {
            phase: self.phase,
            targets: target_views(self.targets@),
            target: self.target as int,
            entries: entry_views(self.entries@),
            entry: self.entry as int,
        }
    }
}

impl Poll {
    #[verifier::type_invariant]
    spec fn valid(&self) -> bool {
        self@.wf()
    }

    /// Where the worker stands.
    pub fn phase(&self) -> (phase: Phase)
        ensures
            phase == self@.phase,
            self@.wf(),
    {
        proof {
            use_type_invariant(self);
        }
        self.phase
    }

    /// The item that the worker is busy with, unless it sleeps.
    pub fn current_target(&self) -> (target: Option<&Target>)
        ensures
            self@.phase is Sleeping ==> target is None,
            !(self@.phase is Sleeping) ==> target is Some && target->0@ == self@.targets[self@.target],
    {
        proof {
            use_type_invariant(self);
        }
        if self.target < self.targets.len() {
            Some(&self.targets[self.target])
        } else {
            None
        }
    }

    /// The entry that the worker is busy with, if it is busy with one.
    pub fn current_entry(&self) -> (entry: Option<&Entry>)
        ensures
            (self@.phase is Sleeping || self@.phase is Listing) ==> entry is None,
            !(self@.phase is Sleeping || self@.phase is Listing) ==> entry is Some && entry->0@
                == self@.entries[self@.entry],
    {
        proof {
            use_type_invariant(self);
        }
        if self.entry < self.entries.len() {
            Some(&self.entries[self.entry])
        } else {
            None
        }
    }
}

/// Copies a list of strings.
fn copy_texts(list: &Vec<String>) -> (copy: Vec<String>)
    ensures
        texts(copy@) == texts(list@),
{
    let mut copy: Vec<String> = Vec::new();
    let mut i: usize = 0;
    while i < list.len()
        invariant
            i <= list.len(),
            copy.len() == i,
            forall|k: int| 0 <= k < i ==> copy[k]@ == list[k]@,
        decreases list.len() - i,
    {
        copy.push(list[i].clone());
        i = i + 1;
    }
    assert(texts(copy@) =~= texts(list@));
    copy
}

impl YtDlpModule {
    /// The name of this source: the configured one, or `yt-dlp`.
    pub open spec fn spec_name(&self) -> Seq<char> {
        text_or(self.spec_config().name, DEFAULT_NAME@)
    }

    /// The number of entries asked of the lister for each item: the
    /// configured one, or ten.
    pub open spec fn spec_limit(&self) -> u64 {
        self.spec_config().limit.unwrap_or(DEFAULT_LIMIT)
    }

    /// The items of this source, categories expanded into their members.
    pub open spec fn spec_targets(&self) -> Seq<TargetView> {
        expanded(self.spec_root_dir(), self.spec_config().items@)
    }

    /// The endpoints that get notice of each retrieval.
    pub open spec fn spec_endpoints(&self) -> Seq<Seq<char>> {
        match self.spec_config().webhooks {
            Some(webhooks) => texts(webhooks@),
            None => Seq::empty(),
        }
    }

    /// The state in which a worker starts: about to list its first item, or
    /// asleep where it has no item.
    pub open spec fn spec_start(&self) -> PollView {
        PollView {
            phase: Phase::Sleeping,
            targets: self.spec_targets(),
            target: self.spec_targets().len() as int,
            entries: Seq::empty(),
            entry: 0,
        }.at_target(0)
    }

    /// The action that a worker in state `poll` waits on.
    pub open spec fn spec_pending(&self, poll: PollView) -> ActionView {
        let target = poll.targets[poll.target];
        let entry = poll.entries[poll.entry];
        match poll.phase {
            Phase::Listing => ActionView::List { args: list_args(target.url, self.spec_limit()) },
            Phase::Checking => ActionView::Ask(QueryView::CheckForUrl(entry.url)),
            Phase::Retrieving => ActionView::Retrieve {
                dir: target.dir,
                args: self.spec_config().download_args(entry.url),
            },
            Phase::RecordingUrl => ActionView::Ask(QueryView::InsertUrl(entry.url)),
            Phase::RecordingItem => ActionView::Ask(
                QueryView::UpdateNewDownloads(self.spec_name(), target.item, target.url),
            ),
            Phase::Notifying { success } => ActionView::Notify {
                endpoints: self.spec_endpoints(),
                notice: NotificationView {
                    module: self.spec_name(),
                    url: entry.url,
                    title: entry.title,
                    item: target.item,
                    success,
                },
            },
            Phase::Sleeping => ActionView::Sleep { minutes: self.spec_config().interval },
        }
    }

    /// The state that follows `poll` on `event`.
    ///
    /// Waking starts a cycle at the first item. A listing that came through
    /// leaves its entries, cut to the limit, to be checked from the first; one
    /// that failed leaves the item for this cycle. An entry that the store
    /// knows is passed over; one that it does not know is retrieved. A
    /// retrieval that went well is recorded, first the entry's locator, then
    /// the item; one that failed is not. Either way notice is given, and the
    /// next entry follows. An event that does not answer the action waited on
    /// changes nothing.
    pub open spec fn spec_next(&self, poll: PollView, event: EventView) -> PollView {
        match (poll.phase, event) {
            (Phase::Sleeping, EventView::Woke) => poll.at_target(0),
            (Phase::Listing, EventView::Listed(Some(printed))) => PollView {
                entries: listed(printed, self.spec_limit()),
                ..poll
            }.at_entry(0),
            (Phase::Listing, EventView::Listed(None)) => poll.at_target(poll.target + 1),
            (Phase::Checking, EventView::Answered(out)) => if out.spec_found() {
                poll.at_entry(poll.entry + 1)
            } else {
                PollView { phase: Phase::Retrieving, ..poll }
            },
            (Phase::Retrieving, EventView::Retrieved(true)) => PollView {
                phase: Phase::RecordingUrl,
                ..poll
            },
            (Phase::Retrieving, EventView::Retrieved(false)) => PollView {
                phase: Phase::Notifying { success: false },
                ..poll
            },
            (Phase::RecordingUrl, EventView::Answered(_)) => PollView {
                phase: Phase::RecordingItem,
                ..poll
            },
            (Phase::RecordingItem, EventView::Answered(_)) => PollView {
                phase: Phase::Notifying { success: true },
                ..poll
            },
            (Phase::Notifying { .. }, EventView::Notified) => poll.at_entry(poll.entry + 1),
            _ => poll,
        }
    }

    /// The name of this source: the configured one, or `yt-dlp`.
    pub fn name(&self) -> (name: String)
        ensures
            name@ == self.spec_name(),
    {
        match &self.config.name {
            Some(name) => name.clone(),
            None => DEFAULT_NAME.to_owned(),
        }
    }

    /// The number of entries asked of the lister for each item.
    pub fn limit(&self) -> (limit: u64)
        ensures
            limit == self.spec_limit(),
    {
        match self.config.limit {
            Some(limit) => limit,
            None => DEFAULT_LIMIT,
        }
    }

    /// Whether every item of this source can be polled.
    pub fn supported(&self) -> (supported: bool)
        ensures
            supported == self.spec_config().supported(),
    {
        let mut i: usize = 0;
        while i < self.config.items.len()
            invariant
                i <= self.config.items.len(),
                forall|k: int| 0 <= k < i ==> !((#[trigger] self.config.items[k]).1 is Unsupported),
            decreases self.config.items.len() - i,
        {
            if let ItemValue::Unsupported = self.config.items[i].1 {
                return false;
            }
            i = i + 1;
        }
        true
    }

    /// The items of this source in configured order, each with the directory
    /// its entries go to: the item's own under the root, and for the member of
    /// a category the member's own under the category's under the root.
    /// Values that name nothing to poll give no item. The source must be one
    /// whose every item can be polled.
    pub fn targets(&self) -> (targets: Vec<Target>)
        requires
            self.spec_config().supported(),
        ensures
            target_views(targets@) == self.spec_targets(),
    {
        let mut targets: Vec<Target> = Vec::new();
        let ghost root = self.root_dir@;
        let ghost items = self.config.items@;
        let mut i: usize = 0;
        assert(target_views(targets@) =~= expanded(root, items.take(0)));
        while i < self.config.items.len()
            invariant
                i <= self.config.items.len(),
                root == self.root_dir@,
                items == self.config.items@,
                self.config.supported(),
                target_views(targets@) == expanded(root, items.take(i as int)),
            decreases self.config.items.len() - i,
        {
            let ghost before = target_views(targets@);
            let name = &self.config.items[i].0;
            assert(items.take(i + 1).drop_last() =~= items.take(i as int));
            assert(items.take(i + 1).last() == items[i as int]);
            match &self.config.items[i].1 {
                ItemValue::Url(url) => {
                    let target = Target {
                        item: name.clone(),
                        url: url.clone(),
                        dir: nest(self.root_dir.as_str(), name.as_str()),
                    };
                    targets.push(target);
                    assert(target_views(targets@) =~= before + item_targets(
                        root,
                        name@,
                        items[i as int].1,
                    ));
                },
                ItemValue::Category(members) => {
                    let under = nest(self.root_dir.as_str(), name.as_str());
                    let mut j: usize = 0;
                    while j < members.len()
                        invariant
                            j <= members.len(),
                            under@ == nested(root, name@),
                            target_views(targets@) == before + member_targets(
                                root,
                                name@,
                                members@,
                            ).take(j as int),
                        decreases members.len() - j,
                    {
                        let ghost so_far = target_views(targets@);
                        let target = Target {
                            item: members[j].0.clone(),
                            url: members[j].1.clone(),
                            dir: nest(under.as_str(), members[j].0.as_str()),
                        };
                        targets.push(target);
                        assert(target_views(targets@) =~= so_far + seq![target@]);
                        assert(member_targets(root, name@, members@).take(j + 1)
                            =~= member_targets(root, name@, members@).take(j as int) + seq![
                            target@,
                        ]);
                        j = j + 1;
                    }
                    assert(member_targets(root, name@, members@).take(j as int)
                        =~= member_targets(root, name@, members@));
                },
                ItemValue::Other => {
                    assert(target_views(targets@) =~= before + item_targets(
                        root,
                        name@,
                        items[i as int].1,
                    ));
                },
                ItemValue::Unsupported => {
                    assert(!(items[i as int].1 is Unsupported));
                },
            }
            i = i + 1;
        }
        assert(items.take(i as int) =~= items);
        targets
    }

    /// The endpoints that get notice of each retrieval.
    pub fn endpoints(&self) -> (endpoints: Vec<String>)
        ensures
            texts(endpoints@) == self.spec_endpoints(),
    {
        match &self.config.webhooks {
            Some(webhooks) => copy_texts(webhooks),
            None => {
                let endpoints: Vec<String> = Vec::new();
                assert(texts(endpoints@) =~= Seq::empty());
                endpoints
            },
        }
    }

    /// The action that a worker in state `poll` waits on.
    pub fn pending(&self, poll: &Poll) -> (action: Action)
        ensures
            action@ == self.spec_pending(poll@),
    {
        proof {
            use_type_invariant(poll);
        }
        match poll.phase {
            Phase::Sleeping => Action::Sleep { minutes: self.config.interval },
            Phase::Listing => {
                let target = &poll.targets[poll.target];
                Action::List { args: Self::list_args(target.url.as_str(), self.limit()) }
            },
            Phase::Checking => {
                let entry = &poll.entries[poll.entry];
                Action::Ask(Query::CheckForUrl(entry.url.clone()))
            },
            Phase::Retrieving => {
                let target = &poll.targets[poll.target];
                let entry = &poll.entries[poll.entry];
                Action::Retrieve {
                    dir: target.dir.clone(),
                    args: self.download_args(entry.url.as_str()),
                }
            },
            Phase::RecordingUrl => {
                let entry = &poll.entries[poll.entry];
                Action::Ask(Query::InsertUrl(entry.url.clone()))
            },
            Phase::RecordingItem => {
                let target = &poll.targets[poll.target];
                Action::Ask(
                    Query::UpdateNewDownloads(self.name(), target.item.clone(), target.url.clone()),
                )
            },
            Phase::Notifying { success } => {
                let target = &poll.targets[poll.target];
                let entry = &poll.entries[poll.entry];
                self.webhook_notify(
                    entry.url.as_str(),
                    entry.title.as_str(),
                    target.item.as_str(),
                    success,
                )
            },
        }
    }

    /// The notice of one retrieval, addressed to every configured webhook:
    /// which source it was, the entry's locator and title, the item, and
    /// whether the retrieval went well.
    pub fn webhook_notify(
        &self,
        video_url: &str,
        video_title: &str,
        item: &str,
        success: bool,
    ) -> (action: Action)
        ensures
            action@ == (ActionView::Notify {
                endpoints: self.spec_endpoints(),
                notice: NotificationView {
                    module: self.spec_name(),
                    url: video_url@,
                    title: video_title@,
                    item: item@,
                    success,
                },
            }),
    {
        Action::Notify {
            endpoints: self.endpoints(),
            notice: Notification {
                module: self.name(),
                url: video_url.to_owned(),
                title: video_title.to_owned(),
                item: item.to_owned(),
                success,
            },
        }
    }

    /// Sets a worker to list the item at place `target`, or to sleep where
    /// there is no such item.
    fn at_target(poll: Poll, target: usize) -> (next: Poll)
        ensures
            next@ == poll@.at_target(target as int),
    {
        let entries: Vec<Entry> = Vec::new();
        assert(entry_views(entries@) =~= Seq::empty());
        if target < poll.targets.len() {
            Poll { phase: Phase::Listing, targets: poll.targets, target, entries, entry: 0 }
        } else {
            let target = poll.targets.len();
            Poll { phase: Phase::Sleeping, targets: poll.targets, target, entries, entry: 0 }
        }
    }

    /// Sets a worker to check the entry at place `entry` of its current
    /// item, or moves it on to the next item where there is no such entry.
    fn at_entry(poll: Poll, entries: Vec<Entry>, entry: usize) -> (next: Poll)
        requires
            poll@.target < poll@.targets.len(),
        ensures
            next@ == (PollView { entries: entry_views(entries@), ..poll@ }).at_entry(entry as int),
    {
        if entry < entries.len() {
            Poll {
                phase: Phase::Checking,
                targets: poll.targets,
                target: poll.target,
                entries,
                entry,
            }
        } else {
            let count = poll.targets.len();
            assert(poll.target < count);
            let target = poll.target + 1;
            Self::at_target(poll, target)
        }
    }

    /// Starts a worker: the state it begins in, and the first thing to do.
    /// The source must be one whose every item can be polled.
    pub fn begin(&self) -> (started: (Poll, Action))
        requires
            self.spec_config().supported(),
        ensures
            started.0@ == self.spec_start(),
            started.0@.wf(),
            started.1@ == self.spec_pending(started.0@),
    {
        let targets = self.targets();
        let entries: Vec<Entry> = Vec::new();
        assert(entry_views(entries@) =~= Seq::empty());
        let target = targets.len();
        let asleep = Poll { phase: Phase::Sleeping, targets, target, entries, entry: 0 };
        let poll = Self::at_target(asleep, 0);
        let action = self.pending(&poll);
        (poll, action)
    }

    /// Tells a worker what came of its last action and asks it what to do
    /// next: the state that follows, and the action it now waits on.
    pub fn step(&self, poll: Poll, event: Event) -> (next: (Poll, Action))
        ensures
            next.0@ == self.spec_next(poll@, event@),
            next.0@.wf(),
            next.1@ == self.spec_pending(next.0@),
    {
        proof {
            use_type_invariant(&poll);
        }
        let next = match (poll.phase, event) {
            (Phase::Sleeping, Event::Woke) => Self::at_target(poll, 0),
            (Phase::Listing, Event::Listed(Ok(printed))) => {
                let entries = parse_entries(printed.as_slice(), self.limit());
                Self::at_entry(poll, entries, 0)
            },
            (Phase::Listing, Event::Listed(Err(_))) => {
                let count = poll.targets.len();
                assert(poll.target < count);
                let target = poll.target + 1;
                Self::at_target(poll, target)
            },
            (Phase::Checking, Event::Answered(out)) => {
                if out.found() {
                    Self::advance_entry(poll)
                } else {
                    Self::in_phase(poll, Phase::Retrieving)
                }
            },
            (Phase::Retrieving, Event::Retrieved(Ok(_))) => Self::in_phase(
                poll,
                Phase::RecordingUrl,
            ),
            (Phase::Retrieving, Event::Retrieved(Err(_))) => Self::in_phase(
                poll,
                Phase::Notifying { success: false },
            ),
            (Phase::RecordingUrl, Event::Answered(_)) => Self::in_phase(poll, Phase::RecordingItem),
            (Phase::RecordingItem, Event::Answered(_)) => Self::in_phase(
                poll,
                Phase::Notifying { success: true },
            ),
            (Phase::Notifying { .. }, Event::Notified) => Self::advance_entry(poll),
            _ => poll,
        };
        proof {
            use_type_invariant(&next);
        }
        let action = self.pending(&next);
        (next, action)
    }

    /// Moves a worker that is busy with an entry on to the next one.
    fn advance_entry(poll: Poll) -> (next: Poll)
        requires
            poll@.target < poll@.targets.len(),
            poll@.entry < poll@.entries.len(),
        ensures
            next@ == poll@.at_entry(poll@.entry + 1),
    {
        let listed = poll.entries.len();
        let count = poll.targets.len();
        assert(poll.entry < listed && poll.target < count);
        let entry = poll.entry + 1;
        if entry < listed {
            Poll { phase: Phase::Checking, entry, ..poll }
        } else {
            let target = poll.target + 1;
            Self::at_target(poll, target)
        }
    }

    /// Moves a worker that is busy with an entry into another phase of its
    /// work on that entry.
    fn in_phase(poll: Poll, phase: Phase) -> (next: Poll)
        requires
            poll@.target < poll@.targets.len(),
            poll@.entry < poll@.entries.len(),
            !(phase is Sleeping),
            !(phase is Listing),
        ensures
            next@ == (PollView { phase, ..poll@ }),
    {
        Poll { phase, ..poll }
    }
}

} // verus!
