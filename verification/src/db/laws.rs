//! What holds of the store whatever requests arrive, in whatever order.

use vstd::prelude::*;

use crate::db::store::count_key;
use crate::db::store::count_url;
use crate::db::store::find_item;
use crate::db::store::has_key;
use crate::db::store::has_url;
use crate::db::store::lemma_count_key;
use crate::db::store::lemma_count_url;
use crate::db::store::touched;
use crate::db::store::ItemLogEntryView;
use crate::db::store::Tables;
use crate::db::ItemKey;
use crate::db::Out;
use crate::db::QueryView;

verus! {

/// How often a queue asks to record `url`.
pub open spec fn inserts_of(queue: Seq<QueryView>, url: Seq<char>) -> nat
    decreases queue.len(),
{
    if queue.len() == 0 {
        0
    } else {
        inserts_of(queue.drop_last(), url) + if queue.last() == QueryView::InsertUrl(url) {
            1nat
        } else {
            0nat
        }
    }
}

/// Whether a queue asks to record `url` at all.
pub open spec fn records(queue: Seq<QueryView>, url: Seq<char>) -> bool {
    exists|i: int| 0 <= i < queue.len() && #[trigger] queue[i] == QueryView::InsertUrl(url)
}

/// A queue asks to record a locator at least once exactly where it asks so somewhere.
pub proof fn lemma_inserts_of(queue: Seq<QueryView>, url: Seq<char>)
    ensures
        inserts_of(queue, url) > 0 <==> records(queue, url),
    decreases queue.len(),
{
    if queue.len() > 0 {
        let front = queue.drop_last();
        lemma_inserts_of(front, url);
        if records(queue, url) {
            let i = choose|i: int|
                0 <= i < queue.len() && #[trigger] queue[i] == QueryView::InsertUrl(url);
            if i < front.len() {
                assert(front[i] == QueryView::InsertUrl(url));
            }
        }
        if records(front, url) {
            let i = choose|i: int|
                0 <= i < front.len() && #[trigger] front[i] == QueryView::InsertUrl(url);
            assert(queue[i] == QueryView::InsertUrl(url));
        }
        if queue.last() == QueryView::InsertUrl(url) {
            assert(queue[queue.len() - 1] == QueryView::InsertUrl(url));
        }
    }
}

/// One request changes the number of rows recorded for `url` by one where it
/// records `url`, and not at all otherwise; it gets one reply either way.
pub proof fn lemma_handle_counts(
    store: Tables,
    query: QueryView,
    now: i64,
    url: Seq<char>,
)
    ensures
        count_url(store.handle(query, now).0.urls, url) == count_url(store.urls, url) + if query
            == QueryView::InsertUrl(url) {
            1nat
        } else {
            0nat
        },
{
    match query {
        QueryView::InsertUrl(inserted) => {
            let after = store.handle(query, now).0.urls;
            assert(after.drop_last() =~= store.urls);
        },
        _ => {},
    }
}

/// **Every request of a queue is carried out exactly once.** However the
/// requests of several workers are interleaved into one queue, there is one
/// reply for each request, and the rows recorded for a locator grow by exactly
/// the number of requests that record it: none is lost, none is applied twice.
pub proof fn serialization(
    store: Tables,
    queue: Seq<QueryView>,
    stamps: Seq<i64>,
    url: Seq<char>,
)
    ensures
        store.handle_all(queue, stamps).1.len() == queue.len(),
        count_url(store.handle_all(queue, stamps).0.urls, url) == count_url(store.urls, url)
            + inserts_of(queue, url),
    decreases queue.len(),
{
    if queue.len() > 0 {
        serialization(store, queue.drop_last(), stamps.drop_last(), url);
        let before = store.handle_all(queue.drop_last(), stamps.drop_last()).0;
        lemma_handle_counts(before, queue.last(), stamps.last(), url);
    }
}

/// The reply to the request at place `at` of a queue is the reply that the
/// request gets from the store as the requests before it have left it.
pub proof fn lemma_reply_at(store: Tables, queue: Seq<QueryView>, stamps: Seq<i64>, at: int)
    requires
        stamps.len() == queue.len(),
        0 <= at < queue.len(),
    ensures
        store.handle_all(queue, stamps).1.len() == queue.len(),
        store.handle_all(queue, stamps).1[at] == store.handle_all(
            queue.take(at),
            stamps.take(at),
        ).0.handle(queue[at], stamps[at]).1,
    decreases queue.len(),
{
    serialization(store, queue, stamps, Seq::empty());
    serialization(store, queue.drop_last(), stamps.drop_last(), Seq::empty());
    if at == queue.len() - 1 {
        assert(queue.take(at) =~= queue.drop_last());
        assert(stamps.take(at) =~= stamps.drop_last());
    } else {
        lemma_reply_at(store, queue.drop_last(), stamps.drop_last(), at);
        assert(queue.drop_last().take(at) =~= queue.take(at));
        assert(stamps.drop_last().take(at) =~= stamps.take(at));
    }
}

/// **A locator counts as retrieved exactly from the moment it is recorded.**
/// After any queue of requests, a locator is reported as retrieved if and only
/// if it was so before the queue or the queue records it. On a store that
/// starts empty, asking for a locator is answered `false` until a request has
/// recorded it, and `true` ever after.
pub proof fn dedup_idempotence(
    store: Tables,
    queue: Seq<QueryView>,
    stamps: Seq<i64>,
    url: Seq<char>,
    now: i64,
)
    ensures
        store.handle_all(queue, stamps).0.handle(QueryView::CheckForUrl(url), now).1 == Out::Bool(
            has_url(store.urls, url) || records(queue, url),
        ),
        Tables::empty().handle_all(queue, stamps).0.handle(QueryView::CheckForUrl(url), now).1
            == Out::Bool(records(queue, url)),
        store.handle(QueryView::InsertUrl(url), now).0.handle(QueryView::CheckForUrl(url), now).1
            == Out::Bool(true),
{
    serialization(store, queue, stamps, url);
    serialization(Tables::empty(), queue, stamps, url);
    lemma_inserts_of(queue, url);
    lemma_count_url(store.urls, url);
    lemma_count_url(store.handle_all(queue, stamps).0.urls, url);
    lemma_count_url(Tables::empty().urls, url);
    lemma_count_url(Tables::empty().handle_all(queue, stamps).0.urls, url);
    let once = store.handle(QueryView::InsertUrl(url), now).0.urls;
    assert(once[once.len() - 1].url == url);
}

/// **A recorded locator is seen by every later question.** In any queue, a
/// request that asks for a locator and stands after one that records it is
/// answered `true`.
pub proof fn insert_visible_to_later_checks(
    store: Tables,
    queue: Seq<QueryView>,
    stamps: Seq<i64>,
    url: Seq<char>,
    insert_at: int,
    check_at: int,
)
    requires
        stamps.len() == queue.len(),
        0 <= insert_at < check_at < queue.len(),
        queue[insert_at] == QueryView::InsertUrl(url),
        queue[check_at] == QueryView::CheckForUrl(url),
    ensures
        store.handle_all(queue, stamps).1[check_at] == Out::Bool(true),
{
    lemma_reply_at(store, queue, stamps, check_at);
    let earlier = queue.take(check_at);
    assert(earlier[insert_at] == QueryView::InsertUrl(url));
    dedup_idempotence(store, earlier, stamps.take(check_at), url, stamps[check_at]);
}

/// After an item is noted at time `now`, exactly as many rows stand under
/// its key as before, or one where none did, and a lookup finds `now`.
pub proof fn lemma_upsert(store: Tables, key: ItemKey, now: i64)
    requires
        store.unique_items(),
    ensures
        ({
            let after = store.handle(
                QueryView::UpdateNewDownloads(key.source, key.item_name, key.item_url),
                now,
            ).0;
            &&& after.unique_items()
            &&& after.urls == store.urls
            &&& count_key(after.item_log, key) == 1
            &&& find_item(after.item_log, key) == Some(now)
        }),
{
    let rows = store.item_log;
    let after = store.handle(
        QueryView::UpdateNewDownloads(key.source, key.item_name, key.item_url),
        now,
    ).0;
    assert(key == ItemKey { source: key.source, item_name: key.item_name, item_url: key.item_url });
    lemma_count_key(rows, key);
    if has_key(rows, key) {
        let at = choose|i: int| 0 <= i < rows.len() && (#[trigger] rows[i]).key == key;
        assert(after.item_log == touched(rows, key, now));
        lemma_touched_keeps_keys(rows, key, now, key);
        lemma_found_is_first(after.item_log, key, at);
        lemma_single(after.item_log, key, at);
    } else {
        let row = ItemLogEntryView { key, last_checked: now };
        assert(after.item_log == rows.push(row));
        assert(after.item_log.drop_last() =~= rows);
        lemma_found_is_first(after.item_log, key, rows.len() as int);
        assert forall|i: int, j: int| 0 <= i < j < after.item_log.len() implies (
        #[trigger] after.item_log[i]).key != (#[trigger] after.item_log[j]).key by {
            if j < rows.len() {
                assert(rows[i].key != rows[j].key);
            } else {
                assert(rows[i] == after.item_log[i]);
            }
        }
    }
}

/// Setting the time under one key leaves every row's key as it was.
proof fn lemma_touched_keeps_keys(
    rows: Seq<ItemLogEntryView>,
    key: ItemKey,
    now: i64,
    other: ItemKey,
)
    ensures
        touched(rows, key, now).len() == rows.len(),
        forall|i: int|
            0 <= i < rows.len() ==> (#[trigger] touched(rows, key, now)[i]).key == rows[i].key,
{
}

/// Where the only row under a key stands at place `at`, a lookup finds its time.
proof fn lemma_found_is_first(rows: Seq<ItemLogEntryView>, key: ItemKey, at: int)
    requires
        0 <= at < rows.len(),
        rows[at].key == key,
        forall|i: int| 0 <= i < at ==> (#[trigger] rows[i]).key != key,
    ensures
        find_item(rows, key) == Some(rows[at].last_checked),
    decreases rows.len(),
{
    if at > 0 {
        let rest = rows.drop_first();
        assert(rows[0].key != key);
        assert forall|i: int| 0 <= i < at - 1 implies (#[trigger] rest[i]).key != key by {
            assert(rows[i + 1].key != key);
        }
        lemma_found_is_first(rest, key, at - 1);
    }
}

/// Where exactly the row at place `at` stands under a key, the key counts one row.
proof fn lemma_single(rows: Seq<ItemLogEntryView>, key: ItemKey, at: int)
    requires
        0 <= at < rows.len(),
        rows[at].key == key,
        forall|i: int| 0 <= i < rows.len() && i != at ==> (#[trigger] rows[i]).key != key,
    ensures
        count_key(rows, key) == 1,
    decreases rows.len(),
{
    let front = rows.drop_last();
    if at == rows.len() - 1 {
        lemma_count_key(front, key);
        if has_key(front, key) {
            let i = choose|i: int| 0 <= i < front.len() && (#[trigger] front[i]).key == key;
            assert(rows[i].key == key);
        }
    } else {
        assert(rows[rows.len() - 1].key != key);
        assert forall|i: int| 0 <= i < front.len() && i != at implies (#[trigger] front[i]).key
            != key by {
            assert(rows[i].key != key);
        }
        lemma_single(front, key, at);
    }
}

/// **Noting an item twice leaves one row.** On a store whose item log holds
/// no key twice, noting the same item at time `first` and again at time
/// `second` leaves exactly one row under its key. That row carries the time of
/// the second call, which is no earlier than the time of the first wherever
/// the clock did not run backwards between the two.
pub proof fn item_log_upsert(store: Tables, key: ItemKey, first: i64, second: i64)
    requires
        store.unique_items(),
    ensures
        ({
            let query = QueryView::UpdateNewDownloads(key.source, key.item_name, key.item_url);
            let once = store.handle(query, first).0;
            let twice = once.handle(query, second).0;
            &&& count_key(once.item_log, key) == 1
            &&& count_key(twice.item_log, key) == 1
            &&& find_item(once.item_log, key) == Some(first)
            &&& find_item(twice.item_log, key) == Some(second)
            &&& first <= second ==> find_item(twice.item_log, key)->0 >= find_item(
                once.item_log,
                key,
            )->0
            &&& twice.item_log.len() == once.item_log.len()
        }),
{
    let query = QueryView::UpdateNewDownloads(key.source, key.item_name, key.item_url);
    lemma_upsert(store, key, first);
    let once = store.handle(query, first).0;
    lemma_upsert(once, key, second);
    lemma_count_key(once.item_log, key);
    assert(key == ItemKey { source: key.source, item_name: key.item_name, item_url: key.item_url });
}

/// **The item log never holds a key twice.** A request leaves the item log
/// without a repeated key where it found it so; so does every queue of
/// requests, and the empty store is such a store.
pub proof fn unique_items_kept(store: Tables, queue: Seq<QueryView>, stamps: Seq<i64>)
    requires
        store.unique_items(),
    ensures
        store.handle_all(queue, stamps).0.unique_items(),
        Tables::empty().unique_items(),
    decreases queue.len(),
{
    if queue.len() > 0 {
        unique_items_kept(store, queue.drop_last(), stamps.drop_last());
        let before = store.handle_all(queue.drop_last(), stamps.drop_last()).0;
        match queue.last() {
            QueryView::UpdateNewDownloads(source, item_name, item_url) => {
                lemma_upsert(before, ItemKey { source, item_name, item_url }, stamps.last());
            },
            _ => {},
        }
    }
}

} // verus!
