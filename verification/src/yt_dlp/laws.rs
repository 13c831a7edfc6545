//! What holds of a worker's cycle whatever the lister, the retrieval and the
//! store come back with.

use vstd::prelude::*;

use crate::db::laws::dedup_idempotence;
use crate::db::laws::lemma_upsert;
use crate::db::store::count_key;
use crate::db::store::find_item;
use crate::db::store::has_url;
use crate::db::store::Tables;
use crate::db::ItemKey;
use crate::db::Out;
use crate::db::QueryView;
use crate::yt_dlp::config::distinct;
use crate::yt_dlp::config::names;
use crate::yt_dlp::config::ItemValue;
use crate::yt_dlp::listing::lines;
use crate::yt_dlp::listing::EntryView;
use crate::yt_dlp::listing::listed;
use crate::yt_dlp::listing::paired;
use crate::text::nested;
use crate::yt_dlp::worker::expanded;
use crate::yt_dlp::worker::item_targets;
use crate::yt_dlp::worker::ActionView;
use crate::yt_dlp::worker::EventView;
use crate::yt_dlp::worker::PollView;
use crate::yt_dlp::worker::TargetView;
use crate::yt_dlp::YtDlpModule;

verus! {

/// **A worker's state stays well formed, and no item is skipped.** Whatever
/// happens, the worker keeps its list of items, and it either stays with the
/// item it is busy with or moves to the one that follows it; from its sleep it
/// moves, if at all, to the first.
pub proof fn every_item_in_turn(module: YtDlpModule, poll: PollView, event: EventView)
    requires
        poll.wf(),
    ensures
        module.spec_next(poll, event).wf(),
        module.spec_next(poll, event).targets == poll.targets,
        poll.phase is Sleeping ==> module.spec_next(poll, event) == poll || module.spec_next(
            poll,
            event,
        ) == poll.at_target(0),
        !(poll.phase is Sleeping) ==> module.spec_next(poll, event).target == poll.target
            || module.spec_next(poll, event) == poll.at_target(poll.target + 1),
        module.spec_start().wf(),
{
}

/// **A failed retrieval costs only its own entry.** Take a worker that is
/// retrieving an entry. If the retrieval fails, the worker asks nothing of the
/// store: it gives notice of the failure and goes on. If it goes well, the
/// worker has the entry's locator recorded, then the item noted, and gives
/// notice of the success. Either way it then stands at the same place: at the
/// next entry of the item, which it checks, or, where the item has no further
/// entry, at the next item.
pub proof fn failure_isolation(module: YtDlpModule, poll: PollView, first: Out, second: Out)
    requires
        poll.wf(),
        poll.phase is Retrieving,
    ensures
        ({
            let target = poll.targets[poll.target];
            let entry = poll.entries[poll.entry];
            let failed = module.spec_next(poll, EventView::Retrieved(false));
            let done = module.spec_next(poll, EventView::Retrieved(true));
            let recorded = module.spec_next(done, EventView::Answered(first));
            let noted = module.spec_next(recorded, EventView::Answered(second));
            &&& module.spec_pending(failed) is Notify
            &&& module.spec_pending(failed)->notice.success == false
            &&& module.spec_pending(failed)->notice.url == entry.url
            &&& module.spec_pending(done) == ActionView::Ask(QueryView::InsertUrl(entry.url))
            &&& module.spec_pending(recorded) == ActionView::Ask(
                QueryView::UpdateNewDownloads(module.spec_name(), target.item, target.url),
            )
            &&& module.spec_pending(noted) is Notify
            &&& module.spec_pending(noted)->notice.success == true
            &&& module.spec_pending(noted)->notice.url == entry.url
            &&& module.spec_next(failed, EventView::Notified) == poll.at_entry(poll.entry + 1)
            &&& module.spec_next(noted, EventView::Notified) == poll.at_entry(poll.entry + 1)
            &&& poll.entry + 1 < poll.entries.len() ==> module.spec_pending(
                poll.at_entry(poll.entry + 1),
            ) == ActionView::Ask(QueryView::CheckForUrl(poll.entries[poll.entry + 1].url))
        }),
{
}

/// **A failed listing costs only its own item.** A worker whose lister
/// failed stands where it would stand had the lister printed nothing: at the
/// next item, or asleep where there is none.
pub proof fn listing_failure_isolation(module: YtDlpModule, poll: PollView)
    requires
        poll.wf(),
        poll.phase is Listing,
    ensures
        module.spec_next(poll, EventView::Listed(None)) == poll.at_target(poll.target + 1),
        module.spec_next(poll, EventView::Listed(None)) == module.spec_next(
            poll,
            EventView::Listed(Some(Seq::empty())),
        ),
{
    assert(lines(Seq::<u8>::empty()) =~= Seq::empty());
    assert(paired(Seq::<Seq<u8>>::empty()) =~= Seq::empty());
    assert(listed(Seq::<u8>::empty(), module.spec_limit()) =~= Seq::empty());
}

/// **An entry that the store knows is never retrieved again.** A worker
/// that is told that the entry's locator is recorded passes the entry over;
/// one that is told that it is not, or gets a reply that answers nothing, has
/// the entry retrieved.
pub proof fn known_entries_are_skipped(module: YtDlpModule, poll: PollView, out: Out)
    requires
        poll.wf(),
        poll.phase is Checking,
    ensures
        out == Out::Bool(true) ==> module.spec_next(poll, EventView::Answered(out))
            == poll.at_entry(poll.entry + 1),
        out != Out::Bool(true) ==> module.spec_pending(
            module.spec_next(poll, EventView::Answered(out)),
        ) is Retrieve,
{
}

/// **No more entries are considered than the limit allows.** However many
/// entries the lister prints, the worker takes up at most as many as the
/// limit, and they are the first that were printed.
pub proof fn limit_caps_entries(module: YtDlpModule, poll: PollView, printed: Seq<u8>)
    requires
        poll.wf(),
        poll.phase is Listing,
    ensures
        ({
            let next = module.spec_next(poll, EventView::Listed(Some(printed)));
            let all = paired(lines(printed));
            &&& next.entries.len() <= module.spec_limit()
            &&& next.entries.len() <= all.len()
            &&& next.phase is Checking ==> next.entries == all.take(next.entries.len() as int)
        }),
{
    let all = paired(lines(printed));
    assert(all.take(all.len() as int) =~= all);
}

/// **What was retrieved is remembered, what failed is tried again.** Take a
/// worker that is retrieving an entry, and a store whose item log holds no key
/// twice. If the retrieval goes well and the store carries out the worker's two
/// requests, the first at time `first` and the second at time `second`, then
/// the store reports the entry's locator as retrieved, and the item log holds
/// exactly one row for the item, stamped `second`. If the retrieval fails, the
/// worker asks nothing of the store before it turns to the next entry, so a
/// locator that the store did not know is still unknown to it, and the next
/// cycle retrieves it again.
pub proof fn retrieved_is_remembered(
    module: YtDlpModule,
    poll: PollView,
    store: Tables,
    first: i64,
    second: i64,
    later: i64,
)
    requires
        poll.wf(),
        poll.phase is Retrieving,
        store.unique_items(),
    ensures
        ({
            let target = poll.targets[poll.target];
            let entry = poll.entries[poll.entry];
            let key = ItemKey {
                source: module.spec_name(),
                item_name: target.item,
                item_url: target.url,
            };
            let done = module.spec_next(poll, EventView::Retrieved(true));
            let after_first = store.handle(module.spec_pending(done)->0, first);
            let recorded = module.spec_next(done, EventView::Answered(after_first.1));
            let after_second = after_first.0.handle(module.spec_pending(recorded)->0, second);
            let failed = module.spec_next(poll, EventView::Retrieved(false));
            &&& after_second.0.handle(QueryView::CheckForUrl(entry.url), later).1 == Out::Bool(
                true,
            )
            &&& count_key(after_second.0.item_log, key) == 1
            &&& find_item(after_second.0.item_log, key) == Some(second)
            &&& after_second.0.unique_items()
            &&& !(module.spec_pending(failed) is Ask)
            &&& !(module.spec_pending(module.spec_next(failed, EventView::Notified))
                matches ActionView::Ask(QueryView::InsertUrl(_)))
            &&& !(module.spec_pending(module.spec_next(failed, EventView::Notified))
                matches ActionView::Ask(QueryView::UpdateNewDownloads(_, _, _)))
        }),
{
    let target = poll.targets[poll.target];
    let entry = poll.entries[poll.entry];
    let key = ItemKey { source: module.spec_name(), item_name: target.item, item_url: target.url };
    let after_first = store.handle(QueryView::InsertUrl(entry.url), first);
    dedup_idempotence(store, Seq::empty(), Seq::empty(), entry.url, first);
    let rows = after_first.0.urls;
    assert(rows[rows.len() - 1].url == entry.url);
    assert(has_url(rows, entry.url));
    lemma_upsert(after_first.0, key, second);
}

/// What becomes of one entry once the worker has it retrieved: whether the
/// retrieval goes well, and the times at which the store takes up the two
/// requests that follow a retrieval that did.
pub struct Fate {
    pub retrieved: bool,
    pub first: i64,
    pub second: i64,
}

/// The store after a worker has dealt with the first `count` of `entries`
/// of the item under `key`: for each entry in turn that the store does not
/// know by then and whose retrieval goes well, the entry's locator is
/// recorded and the item is noted; every other entry leaves the store alone.
pub open spec fn store_after(
    store: Tables,
    key: ItemKey,
    entries: Seq<EntryView>,
    fates: Seq<Fate>,
    count: int,
) -> Tables
    decreases count,
{
    if count <= 0 {
        store
    } else {
        let before = store_after(store, key, entries, fates, count - 1);
        let entry = entries[count - 1];
        let fate = fates[count - 1];
        if has_url(before.urls, entry.url) || !fate.retrieved {
            before
        } else {
            before.handle(QueryView::InsertUrl(entry.url), fate.first).0.handle(
                QueryView::UpdateNewDownloads(key.source, key.item_name, key.item_url),
                fate.second,
            ).0
        }
    }
}

impl YtDlpModule {
    /// The worker and the store after the worker, about to check an entry,
    /// has been through that entry: the store answers each request the worker
    /// makes, and the retrieval, where it comes to one, goes as `fate` has it.
    pub open spec fn after_entry(&self, poll: PollView, store: Tables, fate: Fate) -> (
        PollView,
        Tables,
    ) {
        let asked = store.handle(self.spec_pending(poll)->0, fate.first);
        let checked = self.spec_next(poll, EventView::Answered(asked.1));
        if asked.1.spec_found() {
            (checked, asked.0)
        } else if fate.retrieved {
            let done = self.spec_next(checked, EventView::Retrieved(true));
            let first = asked.0.handle(self.spec_pending(done)->0, fate.first);
            let recorded = self.spec_next(done, EventView::Answered(first.1));
            let second = first.0.handle(self.spec_pending(recorded)->0, fate.second);
            let noted = self.spec_next(recorded, EventView::Answered(second.1));
            (self.spec_next(noted, EventView::Notified), second.0)
        } else {
            let failed = self.spec_next(checked, EventView::Retrieved(false));
            (self.spec_next(failed, EventView::Notified), asked.0)
        }
    }

    /// The worker and the store after the worker has been through the first
    /// `count` entries of its current item.
    pub open spec fn after_entries(
        &self,
        poll: PollView,
        store: Tables,
        fates: Seq<Fate>,
        count: int,
    ) -> (PollView, Tables)
        decreases count,
    {
        if count <= 0 {
            (poll, store)
        } else {
            let before = self.after_entries(poll, store, fates, count - 1);
            self.after_entry(before.0, before.1, fates[count - 1])
        }
    }
}

/// **A whole item leaves in the store exactly what was retrieved of it.**
/// Take a worker that is about to check the first entry listed for an item.
/// Whatever the store holds, and however each retrieval goes, after the first
/// `count` entries the worker stands at the entry that follows them, or at
/// the next item where they were all; and the store holds, beyond what it
/// held, one row for each entry that it did not know and that was retrieved,
/// and the item noted at the time of the last such entry. An entry whose
/// retrieval failed has left no trace, and neither has one that was known.
pub proof fn whole_item(
    module: YtDlpModule,
    poll: PollView,
    store: Tables,
    fates: Seq<Fate>,
    count: int,
)
    requires
        poll.wf(),
        poll.phase is Checking,
        poll.entry == 0,
        0 <= count <= poll.entries.len(),
    ensures
        module.after_entries(poll, store, fates, count).0 == poll.at_entry(count),
        module.after_entries(poll, store, fates, count).1 == store_after(
            store,
            ItemKey {
                source: module.spec_name(),
                item_name: poll.targets[poll.target].item,
                item_url: poll.targets[poll.target].url,
            },
            poll.entries,
            fates,
            count,
        ),
    decreases count,
{
    if count > 0 {
        whole_item(module, poll, store, fates, count - 1);
        let before = module.after_entries(poll, store, fates, count - 1);
        assert(before.0 == poll.at_entry(count - 1));
        assert(before.0 == PollView { entry: count - 1, ..poll });
        assert((PollView { entry: count - 1, ..poll }).at_entry(count) == poll.at_entry(count));
    }
}

/// The item names of a list of targets, in order.
pub open spec fn target_names(targets: Seq<TargetView>) -> Seq<Seq<char>> {
    Seq::new(targets.len(), |i: int| targets[i].item)
}

/// The targets of single items only are the items themselves, one for one.
proof fn lemma_flat_expanded(root: Seq<char>, items: Seq<(String, ItemValue)>)
    requires
        forall|i: int| 0 <= i < items.len() ==> (#[trigger] items[i]).1 is Url,
    ensures
        expanded(root, items).len() == items.len(),
        forall|k: int|
            0 <= k < items.len() ==> (#[trigger] expanded(root, items)[k]) == (TargetView {
                item: items[k].0@,
                url: items[k].1->Url_0@,
                dir: nested(root, items[k].0@),
            }),
    decreases items.len(),
{
    if items.len() > 0 {
        let front = items.drop_last();
        assert forall|i: int| 0 <= i < front.len() implies (#[trigger] front[i]).1 is Url by {
            assert(items[i].1 is Url);
        }
        lemma_flat_expanded(root, front);
        assert(items.last() == items[items.len() - 1]);
        assert forall|k: int| 0 <= k < items.len() implies (#[trigger] expanded(root, items)[k])
            == (TargetView {
            item: items[k].0@,
            url: items[k].1->Url_0@,
            dir: nested(root, items[k].0@),
        }) by {
            if k < front.len() {
                assert(expanded(root, items)[k] == expanded(root, front)[k]);
                assert(front[k] == items[k]);
            }
        }
    }
}

/// **Where no name occurs twice, every name is polled once.** Take a source
/// whose item names do not repeat, nor the member names within any of its
/// categories. Then the targets that stand under one configured name carry
/// no item name twice. Where the source holds single items only, it has one
/// target for each, under the item's own name, so that no two targets of the
/// whole source share a name, and each is noted in the item log under a key
/// of its own.
pub proof fn every_name_polled_once(module: YtDlpModule, at: int)
    requires
        module.spec_config().distinct_names(),
        0 <= at < module.spec_config().items.len(),
    ensures
        distinct(
            target_names(
                item_targets(
                    module.spec_root_dir(),
                    module.spec_config().items[at].0@,
                    module.spec_config().items[at].1,
                ),
            ),
        ),
        (forall|i: int|
            0 <= i < module.spec_config().items.len() ==> (#[trigger] module.spec_config().items[i]).1
                is Url) ==> {
            &&& module.spec_targets().len() == module.spec_config().items.len()
            &&& distinct(target_names(module.spec_targets()))
            &&& forall|k: int|
                0 <= k < module.spec_targets().len() ==> (#[trigger] module.spec_targets()[k]).item
                    == module.spec_config().items[k].0@
        },
{
    let config = module.spec_config();
    let root = module.spec_root_dir();
    let item = config.items[at];
    assert(item.1.distinct_members());
    match item.1 {
        ItemValue::Category(members) => {
            let targets = item_targets(root, item.0@, item.1);
            assert forall|i: int, j: int| 0 <= i < j < targets.len() implies target_names(
                targets,
            )[i] != target_names(targets)[j] by {
                assert(names(members@)[i] != names(members@)[j]);
            }
        },
        _ => {},
    }
    if forall|i: int| 0 <= i < config.items.len() ==> (#[trigger] config.items[i]).1 is Url {
        lemma_flat_expanded(root, config.items@);
        let targets = module.spec_targets();
        assert forall|i: int, j: int| 0 <= i < j < targets.len() implies target_names(targets)[i]
            != target_names(targets)[j] by {
            assert(names(config.items@)[i] != names(config.items@)[j]);
            assert(targets[i].item == config.items[i].0@);
            assert(targets[j].item == config.items[j].0@);
        }
    }
}

} // verus!
