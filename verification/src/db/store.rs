//! The two tables, held in memory, and what each statement does to them.

use vstd::prelude::*;

use crate::db::Answer;
use crate::db::ItemKey;
use crate::db::Out;
use crate::db::QueryView;
use crate::db::Statement;
use crate::db::StatementView;

verus! {

/// A locator that was retrieved, with the time at which it was recorded.
#[derive(Debug, Clone)]
pub struct DownloadedUrl {
    pub url: String,
    pub retrieved_at: i64,
}

/// The mathematical value of a [`DownloadedUrl`].
pub struct DownloadedUrlView {
    pub url: Seq<char>,
    pub retrieved_at: i64,
}

impl View for DownloadedUrl {
    type V = DownloadedUrlView;

    open spec fn view(&self) -> DownloadedUrlView {
        DownloadedUrlView { url: self.url@, retrieved_at: self.retrieved_at }
    }
}

/// An item of a source, with the time at which it was last checked.
#[derive(Debug, Clone)]
pub struct ItemLogEntry {
    pub source: String,
    pub item_name: String,
    pub item_url: String,
    pub last_checked: i64,
}

/// The mathematical value of an [`ItemLogEntry`].
pub struct ItemLogEntryView {
    pub key: ItemKey,
    pub last_checked: i64,
}

impl View for ItemLogEntry {
    type V = ItemLogEntryView;

    open spec fn view(&self) -> ItemLogEntryView {
        ItemLogEntryView {
            key: ItemKey {
                source: self.source@,
                item_name: self.item_name@,
                item_url: self.item_url@,
            },
            last_checked: self.last_checked,
        }
    }
}

/// The number of rows recorded for `url`.
pub open spec fn count_url(urls: Seq<DownloadedUrlView>, url: Seq<char>) -> nat
    decreases urls.len(),
{
    if urls.len() == 0 {
        0
    } else {
        count_url(urls.drop_last(), url) + if urls.last().url == url {
            1nat
        } else {
            0nat
        }
    }
}

/// A number of rows as the tables report it: itself, or the largest number
/// they can report where it is larger.
pub open spec fn counted(n: nat) -> u64 {
    if n <= u64::MAX {
        n as u64
    } else {
        u64::MAX
    }
}

/// Whether some row is recorded for `url`.
pub open spec fn has_url(urls: Seq<DownloadedUrlView>, url: Seq<char>) -> bool {
    exists|i: int| 0 <= i < urls.len() && (#[trigger] urls[i]).url == url
}

/// The number of item-log rows under `key`.
pub open spec fn count_key(items: Seq<ItemLogEntryView>, key: ItemKey) -> nat
    decreases items.len(),
{
    if items.len() == 0 {
        0
    } else {
        count_key(items.drop_last(), key) + if items.last().key == key {
            1nat
        } else {
            0nat
        }
    }
}

/// Whether some item-log row stands under `key`.
pub open spec fn has_key(items: Seq<ItemLogEntryView>, key: ItemKey) -> bool {
    exists|i: int| 0 <= i < items.len() && (#[trigger] items[i]).key == key
}

/// The time of the first item-log row under `key`, if there is one.
pub open spec fn find_item(items: Seq<ItemLogEntryView>, key: ItemKey) -> Option<i64>
    decreases items.len(),
{
    if items.len() == 0 {
        None
    } else if items[0].key == key {
        Some(items[0].last_checked)
    } else {
        find_item(items.drop_first(), key)
    }
}

/// The item log with the time of every row under `key` set to `timestamp`.
pub open spec fn touched(items: Seq<ItemLogEntryView>, key: ItemKey, timestamp: i64) -> Seq<
    ItemLogEntryView,
> {
    Seq::new(
        items.len(),
        |i: int|
            if items[i].key == key {
                ItemLogEntryView { key, last_checked: timestamp }
            } else {
                items[i]
            },
    )
}

/// The mathematical value of a [`Store`]: the rows of its two tables, oldest first.
pub struct Tables {
    pub urls: Seq<DownloadedUrlView>,
    pub item_log: Seq<ItemLogEntryView>,
}

impl Tables {
    /// The store without rows.
    pub open spec fn empty() -> Tables {
        Tables { urls: Seq::empty(), item_log: Seq::empty() }
    }

    /// No two item-log rows stand under one key.
    pub open spec fn unique_items(self) -> bool {
        forall|i: int, j: int|
            0 <= i < j < self.item_log.len() ==> (#[trigger] self.item_log[i]).key != (
            #[trigger] self.item_log[j]).key
    }

    /// The store after a request received at time `now`, and the reply.
    ///
    /// Recording a locator adds a row stamped `now`, whether or not the locator
    /// is there already. Asking for a locator changes nothing and answers whether
    /// a row holds exactly that locator. Noting an item sets the time of its
    /// rows to `now` where it has any, and adds a row stamped `now` where it has none.
    pub open spec fn handle(self, query: QueryView, now: i64) -> (Tables, Out) {
        match query {
            QueryView::InsertUrl(url) => (
                Tables {
                    urls: self.urls.push(DownloadedUrlView { url, retrieved_at: now }),
                    ..self
                },
                Out::Done,
            ),
            QueryView::CheckForUrl(url) => (self, Out::Bool(has_url(self.urls, url))),
            QueryView::UpdateNewDownloads(source, item_name, item_url) => {
                let key = ItemKey { source, item_name, item_url };
                (
                    Tables {
                        item_log: if has_key(self.item_log, key) {
                            touched(self.item_log, key, now)
                        } else {
                            self.item_log.push(ItemLogEntryView { key, last_checked: now })
                        },
                        ..self
                    },
                    Out::Done,
                )
            },
        }
    }

    /// The store after the requests of a queue, taken in order, the i-th
    /// received at time `stamps[i]`, and the replies in the same order.
    pub open spec fn handle_all(self, queue: Seq<QueryView>, stamps: Seq<i64>) -> (
        Tables,
        Seq<Out>,
    )
        decreases queue.len(),
    {
        if queue.len() == 0 {
            (self, Seq::empty())
        } else {
            let (before, replies) = self.handle_all(queue.drop_last(), stamps.drop_last());
            let (after, reply) = before.handle(queue.last(), stamps.last());
            (after, replies.push(reply))
        }
    }

    /// The store after a statement, and the statement's answer.
    pub open spec fn execute(self, statement: StatementView) -> (Tables, Answer) {
        match statement {
            StatementView::InsertUrl { url, timestamp } => (
                Tables {
                    urls: self.urls.push(DownloadedUrlView { url, retrieved_at: timestamp }),
                    ..self
                },
                Answer::Written,
            ),
            StatementView::CountUrl { url } => (
                self,
                Answer::Count(counted(count_url(self.urls, url))),
            ),
            StatementView::FindItem { key } => (self, Answer::Found(find_item(self.item_log, key))),
            StatementView::TouchItem { key, timestamp } => (
                Tables { item_log: touched(self.item_log, key, timestamp), ..self },
                Answer::Written,
            ),
            StatementView::InsertItem { key, timestamp } => (
                Tables {
                    item_log: self.item_log.push(ItemLogEntryView { key, last_checked: timestamp }),
                    ..self
                },
                Answer::Written,
            ),
        }
    }
}

/// A count is positive exactly where a row exists, and never exceeds the number of rows.
pub proof fn lemma_count_url(urls: Seq<DownloadedUrlView>, url: Seq<char>)
    ensures
        count_url(urls, url) <= urls.len(),
        count_url(urls, url) > 0 <==> has_url(urls, url),
    decreases urls.len(),
{
    if urls.len() > 0 {
        let front = urls.drop_last();
        lemma_count_url(front, url);
        if has_url(urls, url) {
            let i = choose|i: int| 0 <= i < urls.len() && (#[trigger] urls[i]).url == url;
            if i < front.len() {
                assert(front[i].url == url);
            }
        }
        if has_url(front, url) {
            let i = choose|i: int| 0 <= i < front.len() && (#[trigger] front[i]).url == url;
            assert(urls[i].url == url);
        }
        if urls.last().url == url {
            assert(urls[urls.len() - 1].url == url);
        }
    }
}

/// A count of keyed rows is positive exactly where a row exists, and never
/// exceeds the number of rows.
pub proof fn lemma_count_key(items: Seq<ItemLogEntryView>, key: ItemKey)
    ensures
        count_key(items, key) <= items.len(),
        count_key(items, key) > 0 <==> has_key(items, key),
    decreases items.len(),
{
    if items.len() > 0 {
        let front = items.drop_last();
        lemma_count_key(front, key);
        if has_key(items, key) {
            let i = choose|i: int| 0 <= i < items.len() && (#[trigger] items[i]).key == key;
            if i < front.len() {
                assert(front[i].key == key);
            }
        }
        if has_key(front, key) {
            let i = choose|i: int| 0 <= i < front.len() && (#[trigger] front[i]).key == key;
            assert(items[i].key == key);
        }
        if items.last().key == key {
            assert(items[items.len() - 1].key == key);
        }
    }
}

/// A lookup finds a time exactly where a row exists under the key.
pub proof fn lemma_find_item(items: Seq<ItemLogEntryView>, key: ItemKey)
    ensures
        find_item(items, key) is Some <==> has_key(items, key),
    decreases items.len(),
{
    if items.len() > 0 {
        let rest = items.drop_first();
        lemma_find_item(rest, key);
        if items[0].key == key {
        } else {
            if has_key(items, key) {
                let i = choose|i: int| 0 <= i < items.len() && (#[trigger] items[i]).key == key;
                assert(rest[i - 1].key == key);
            }
            if has_key(rest, key) {
                let i = choose|i: int| 0 <= i < rest.len() && (#[trigger] rest[i]).key == key;
                assert(items[i + 1].key == key);
            }
        }
    }
}

/// The rows of the table of retrieved locators.
pub open spec fn url_rows(urls: Seq<DownloadedUrl>) -> Seq<DownloadedUrlView> {
    Seq::new(urls.len(), |i: int| urls[i]@)
}

/// The rows of the item log.
pub open spec fn item_rows(items: Seq<ItemLogEntry>) -> Seq<ItemLogEntryView> {
    Seq::new(items.len(), |i: int| items[i]@)
}

/// The table of retrieved locators and the item log. A store is not copied:
/// there is one of each table.
#[derive(Debug)]
pub struct Store {
    urls: Vec<DownloadedUrl>,
    item_log: Vec<ItemLogEntry>,
}

impl View for Store {
    type V = Tables;

    closed spec fn view(&self) -> Tables {
        Tables { urls: url_rows(self.urls@), item_log: item_rows(self.item_log@) }
    }
}

impl Store {
    /// A store without rows.
    pub fn new() -> (store: Self)
        ensures
            store@ == Tables::empty(),
    {
        let store = Store { urls: Vec::new(), item_log: Vec::new() };
        assert(store@.urls =~= Seq::empty());
        assert(store@.item_log =~= Seq::empty());
        store
    }

    /// The rows of retrieved locators, oldest first.
    pub fn urls(&self) -> (rows: &Vec<DownloadedUrl>)
        ensures
            url_rows(rows@) == self@.urls,
    {
        &self.urls
    }

    /// The rows of the item log, oldest first.
    pub fn item_log(&self) -> (rows: &Vec<ItemLogEntry>)
        ensures
            item_rows(rows@) == self@.item_log,
    {
        &self.item_log
    }

    /// Counts the rows recorded for `url`.
    fn count(&self, url: &String) -> (n: u64)
        ensures
            n == count_url(self@.urls, url@),
    {
        let mut n: u64 = 0;
        let mut i: usize = 0;
        while i < self.urls.len()
            invariant
                i <= self.urls.len(),
                n <= i,
                n == count_url(self@.urls.take(i as int), url@),
            decreases self.urls.len() - i,
        {
            assert(self@.urls.take(i + 1).drop_last() =~= self@.urls.take(i as int));
            if self.urls[i].url == *url {
                n = n + 1;
            }
            i = i + 1;
        }
        assert(self@.urls.take(i as int) =~= self@.urls);
        n
    }

    /// Looks up the time of the first item-log row under the key.
    fn find(&self, source: &String, item_name: &String, item_url: &String) -> (found: Option<i64>)
        ensures
            found == find_item(
                self@.item_log,
                ItemKey { source: source@, item_name: item_name@, item_url: item_url@ },
            ),
    {
        let ghost key = ItemKey { source: source@, item_name: item_name@, item_url: item_url@ };
        let mut i: usize = 0;
        assert(self@.item_log.skip(0) =~= self@.item_log);
        while i < self.item_log.len()
            invariant
                i <= self.item_log.len(),
                key == (ItemKey { source: source@, item_name: item_name@, item_url: item_url@ }),
                find_item(self@.item_log, key) == find_item(self@.item_log.skip(i as int), key),
            decreases self.item_log.len() - i,
        {
            let row = &self.item_log[i];
            assert(self@.item_log.skip(i as int)[0] == row@);
            assert(self@.item_log.skip(i as int).drop_first() =~= self@.item_log.skip(i + 1));
            if row.source == *source && row.item_name == *item_name && row.item_url == *item_url {
                return Some(row.last_checked);
            }
            i = i + 1;
        }
        None
    }

    /// Sets the time of every item-log row under the key.
    fn touch(&mut self, source: &String, item_name: &String, item_url: &String, timestamp: i64)
        ensures
            final(self)@.urls == old(self)@.urls,
            final(self)@.item_log == touched(
                old(self)@.item_log,
                ItemKey { source: source@, item_name: item_name@, item_url: item_url@ },
                timestamp,
            ),
    {
        let ghost key = ItemKey { source: source@, item_name: item_name@, item_url: item_url@ };
        let mut i: usize = 0;
        while i < self.item_log.len()
            invariant
                i <= self.item_log.len(),
                key == (ItemKey { source: source@, item_name: item_name@, item_url: item_url@ }),
                self.urls == old(self).urls,
                self.item_log.len() == old(self).item_log.len(),
                forall|j: int|
                    0 <= j < i ==> (#[trigger] self@.item_log[j]) == touched(
                        old(self)@.item_log,
                        key,
                        timestamp,
                    )[j],
                forall|j: int|
                    i <= j < self.item_log.len() ==> (#[trigger] self@.item_log[j]) == old(
                        self,
                    )@.item_log[j],
            decreases self.item_log.len() - i,
        {
            let row = &self.item_log[i];
            assert(self@.item_log[i as int] == row@);
            if row.source == *source && row.item_name == *item_name && row.item_url == *item_url {
                let fresh = ItemLogEntry {
                    source: row.source.clone(),
                    item_name: row.item_name.clone(),
                    item_url: row.item_url.clone(),
                    last_checked: timestamp,
                };
                let ghost before = self@.item_log;
                self.item_log.set(i, fresh);
                assert forall|j: int| 0 <= j < self.item_log.len() && j != i implies (
                #[trigger] self@.item_log[j]) == before[j] by {}
            }
            i = i + 1;
        }
        assert(self@.item_log =~= touched(old(self)@.item_log, key, timestamp));
    }

    /// Carries out one statement and hands back its answer.
    pub fn execute(&mut self, statement: &Statement) -> (answer: Answer)
        ensures
            (final(self)@, answer) == old(self)@.execute(statement@),
    {
        match statement {
            Statement::InsertUrl { url, timestamp } => {
                self.urls.push(DownloadedUrl { url: url.clone(), retrieved_at: *timestamp });
                assert(self@.urls =~= old(self)@.urls.push(
                    DownloadedUrlView { url: url@, retrieved_at: *timestamp },
                ));
                Answer::Written
            },
            Statement::CountUrl { url } => Answer::Count(self.count(url)),
            Statement::FindItem { source, item_name, item_url } => Answer::Found(
                self.find(source, item_name, item_url),
            ),
            Statement::TouchItem { source, item_name, item_url, timestamp } => {
                self.touch(source, item_name, item_url, *timestamp);
                Answer::Written
            },
            Statement::InsertItem { source, item_name, item_url, timestamp } => {
                self.item_log.push(
                    ItemLogEntry {
                        source: source.clone(),
                        item_name: item_name.clone(),
                        item_url: item_url.clone(),
                        last_checked: *timestamp,
                    },
                );
                assert(self@.item_log =~= old(self)@.item_log.push(
                    ItemLogEntryView {
                        key: ItemKey { source: source@, item_name: item_name@, item_url: item_url@ },
                        last_checked: *timestamp,
                    },
                ));
                Answer::Written
            },
        }
    }
}

} // verus!
