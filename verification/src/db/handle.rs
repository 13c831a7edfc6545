//! The handle through which a worker reaches the store.

use vstd::prelude::*;

use crate::db::backend::DatabaseBackend;
use crate::db::store::has_url;
use crate::db::store::Tables;
use crate::db::Out;
use crate::db::Query;
use crate::db::QueryView;

verus! {

/// A handle that reaches its actor directly: each call makes one request,
/// has the actor carry it out, and returns when the reply is there.
///
/// The handle borrows the actor, so there is one handle on an actor at a
/// time and it cannot be copied; every handle taken on an actor, one after
/// the other, works on that actor's one store. Giving several threads a
/// handle each on one actor takes a queue between them and is left to the
/// program that embeds the library.
#[derive(Debug)]
pub struct Database<'a> {
    /// The actor behind the handle.
    pub backend: &'a mut DatabaseBackend,
}

impl<'a> View for Database<'a> {
    type V = Tables;

    open spec fn view(&self) -> Tables {
        self.backend@
    }
}

impl<'a> Database<'a> {
    /// A handle on the given actor.
    pub fn new(backend: &'a mut DatabaseBackend) -> (db: Self)
        ensures
            *db.backend == *old(backend),
            *final(backend) == *final(db.backend),
    {
        Database { backend }
    }

    /// Records `url` as retrieved: one row is added for it, stamped with the
    /// time at which the actor takes the request up. From then on the
    /// locator counts as retrieved.
    pub fn insert_url(&mut self, url: &str)
        ensures
            exists|now: i64|
                final(self)@ == (#[trigger] old(self)@.handle(QueryView::InsertUrl(url@), now)).0,
            final(self)@.urls.len() == old(self)@.urls.len() + 1,
            final(self)@.urls.drop_last() == old(self)@.urls,
            final(self)@.urls.last().url == url@,
            final(self)@.item_log == old(self)@.item_log,
            has_url(final(self)@.urls, url@),
            final(self).backend.file == old(self).backend.file,
            *final(final(self).backend) == *final(old(self).backend),
    {
        let query = Query::InsertUrl(url.to_owned());
        let _ = self.backend.serve(&query);
        proof {
            let now = choose|now: i64|
                (self@, Out::Done) == #[trigger] old(self)@.handle(query@, now);
            assert(self@ == old(self)@.handle(QueryView::InsertUrl(url@), now).0);
            assert(self@.urls.drop_last() =~= old(self)@.urls);
            assert(self@.urls[self@.urls.len() - 1].url == url@);
        }
    }

    /// Whether `url` was recorded as retrieved: whether the table holds a
    /// row with exactly this locator. The store is left as it was.
    pub fn check_for_url(&mut self, url: &str) -> (found: bool)
        ensures
            found == has_url(old(self)@.urls, url@),
            final(self)@ == old(self)@,
            final(self).backend.file == old(self).backend.file,
            *final(final(self).backend) == *final(old(self).backend),
    {
        let query = Query::CheckForUrl(url.to_owned());
        let out = self.backend.serve(&query);
        out.found()
    }

    /// Notes that the item `name` of the source `module`, found at `url`, was
    /// checked: the time of its row is set to the time at which the actor
    /// takes the request up, and a row is added where it has none.
    pub fn update_new_downloads(&mut self, module: &str, name: &str, url: &str)
        ensures
            exists|now: i64|
                final(self)@ == (#[trigger] old(self)@.handle(
                    QueryView::UpdateNewDownloads(module@, name@, url@),
                    now,
                )).0,
            final(self)@.urls == old(self)@.urls,
            final(self).backend.file == old(self).backend.file,
            *final(final(self).backend) == *final(old(self).backend),
    {
        let query = Query::UpdateNewDownloads(module.to_owned(), name.to_owned(), url.to_owned());
        let _ = self.backend.serve(&query);
        proof {
            let now = choose|now: i64|
                (self@, Out::Done) == #[trigger] old(self)@.handle(query@, now);
            assert(self@ == old(self)@.handle(
                QueryView::UpdateNewDownloads(module@, name@, url@),
                now,
            ).0);
        }
    }
}

} // verus!
