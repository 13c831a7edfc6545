//! The actor: the one place from which the tables are written.

use vstd::prelude::*;

use crate::db::advance;
use crate::db::begin;
use crate::db::handle::Database;
use crate::db::store::lemma_count_url;
use crate::db::store::lemma_find_item;
use crate::db::store::Store;
use crate::db::store::Tables;
use crate::db::ItemKey;
use crate::db::Out;
use crate::db::Query;
use crate::db::QueryView;
use crate::db::Step;

verus! {

/// The values of the requests of a queue, in order.
pub open spec fn queue_view(queue: Seq<Query>) -> Seq<QueryView> {
    Seq::new(queue.len(), |i: int| queue[i]@)
}

/// Reads the machine's clock and hands the instant to chrono: the
/// conversion `DateTime::<Utc>::from` of a `SystemTime`, then
/// `DateTime::timestamp_millis`, which gives milliseconds since the Unix
/// epoch, negative for a clock that reads before 1970. Nothing is claimed of
/// the value: two readings may come out in either order.
#[verifier::external_body]
fn wall_clock_millis() -> i64 {
    chrono::DateTime::<chrono::Utc>::from(std::time::SystemTime::now()).timestamp_millis()
}

/// The actor over a store held in memory.
///
/// It takes requests one at a time; each is applied whole before the next is
/// looked at. An actor is one store: it is not copied.
#[derive(Debug)]
pub struct DatabaseBackend {
    /// The name given to the store when the actor was made. The library
    /// keeps the store in memory and never opens a file: the name is for
    /// the program that keeps the store on disk.
    pub file: String,
    /// The tables.
    pub store: Store,
}

impl View for DatabaseBackend {
    type V = Tables;

    open spec fn view(&self) -> Tables {
        self.store@
    }
}

impl DatabaseBackend {
    /// An actor over an empty store.
    pub fn new(file: &str) -> (backend: Self)
        ensures
            backend@ == Tables::empty(),
            backend.file@ == file@,
    {
        DatabaseBackend { file: file.to_owned(), store: Store::new() }
    }

    /// A handle that reaches this actor directly. Whatever is asked through
    /// the handle is carried out on this actor's store, and the store keeps it
    /// when the handle is gone; a handle taken later finds it there.
    pub fn take_db(&mut self) -> (db: Database<'_>)
        ensures
            *db.backend == *old(self),
            *final(self) == *final(db.backend),
    {
        Database::new(self)
    }

    /// Carries out one request, received at time `now`, statement by statement,
    /// and hands back its reply.
    pub fn handle(&mut self, query: &Query, now: i64) -> (out: Out)
        ensures
            (final(self)@, out) == old(self)@.handle(query@, now),
            final(self).file == old(self).file,
    {
        proof {
            match query {
                Query::InsertUrl(_) => {},
                Query::CheckForUrl(url) => {
                    lemma_count_url(self@.urls, url@);
                },
                Query::UpdateNewDownloads(source, item_name, item_url) => {
                    lemma_find_item(
                        self@.item_log,
                        ItemKey { source: source@, item_name: item_name@, item_url: item_url@ },
                    );
                },
            }
        }
        let first = begin(query, now);
        let answer = self.store.execute(&first);
        match advance(query, now, answer) {
            Step::Reply(out) => out,
            Step::Run(second) => {
                let answer = self.store.execute(&second);
                match advance(query, now, answer) {
                    Step::Reply(out) => out,
                    Step::Run(_) => Out::Done,
                }
            },
        }
    }

    /// Carries out one request, stamped with the time at which it is taken up.
    pub fn serve(&mut self, query: &Query) -> (out: Out)
        ensures
            exists|now: i64| (final(self)@, out) == #[trigger] old(self)@.handle(query@, now),
            final(self).file == old(self).file,
    {
        let now = wall_clock_millis();
        let out = self.handle(query, now);
        assert((self@, out) == old(self)@.handle(query@, now));
        out
    }

    /// Carries out the requests of a queue in the order in which they stand,
    /// each stamped with the time at which it is taken up, and hands back one
    /// reply for each, in the same order.
    pub fn run(&mut self, queue: &Vec<Query>) -> (replies: Vec<Out>)
        ensures
            exists|stamps: Seq<i64>|
                stamps.len() == queue.len() && (final(self)@, replies@) == #[trigger] old(
                    self,
                )@.handle_all(queue_view(queue@), stamps),
            final(self).file == old(self).file,
    {
        let mut replies: Vec<Out> = Vec::new();
        let ghost mut stamps: Seq<i64> = Seq::empty();
        let mut i: usize = 0;
        while i < queue.len()
            invariant
                i <= queue.len(),
                stamps.len() == i,
                self.file == old(self).file,
                (self@, replies@) == old(self)@.handle_all(queue_view(queue@).take(i as int), stamps),
            decreases queue.len() - i,
        {
            let ghost before = self@;
            let ghost earlier = replies@;
            let now = wall_clock_millis();
            let out = self.handle(&queue[i], now);
            replies.push(out);
            proof {
                let taken = queue_view(queue@).take(i + 1);
                assert(taken.drop_last() =~= queue_view(queue@).take(i as int));
                assert(taken.last() == queue[i as int]@);
                assert(stamps.push(now).drop_last() =~= stamps);
                stamps = stamps.push(now);
            }
            i = i + 1;
        }
        assert(queue_view(queue@).take(i as int) =~= queue_view(queue@));
        replies
    }
}

} // verus!
