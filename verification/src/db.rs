//! The store of what was retrieved, and the actor that alone writes to it.
//!
//! Workers never touch the tables. Each sends a [`Query`] and waits for its
//! [`Out`]. The actor takes one request at a time and turns it into statements
//! against the tables: [`begin`] names the first statement, [`advance`] reads the
//! tables' answer and either names one more statement or ends the request with
//! its reply. [`Store`] holds the two tables in memory and says what each
//! statement does; [`DatabaseBackend`] is the actor over such a store.

pub mod backend;
pub mod handle;
pub mod laws;
pub mod store;

use vstd::prelude::*;

pub use backend::DatabaseBackend;
pub use handle::Database;
pub use store::DownloadedUrl;
pub use store::ItemLogEntry;
pub use store::Store;





verus! {

/// A request to the actor.
#[derive(Debug, Clone)]
pub enum Query {
    /// Record a locator as retrieved.
    InsertUrl(String),
    /// Ask whether a locator was recorded as retrieved.
    CheckForUrl(String),
    /// Note that an item of a source was checked: source, item name, item locator.
    UpdateNewDownloads(String, String, String),
}

/// The mathematical value of a [`Query`].
pub enum QueryView {
    InsertUrl(Seq<char>),
    CheckForUrl(Seq<char>),
    UpdateNewDownloads(Seq<char>, Seq<char>, Seq<char>),
}

impl View for Query {
    type V = QueryView;

    open spec fn view(&self) -> QueryView {
        match self {
            Query::InsertUrl(url) => QueryView::InsertUrl(url@),
            Query::CheckForUrl(url) => QueryView::CheckForUrl(url@),
            Query::UpdateNewDownloads(source, item, url) => QueryView::UpdateNewDownloads(
                source@,
                item@,
                url@,
            ),
        }
    }
}

/// The actor's reply to a request.
#[derive(Debug, Clone, Copy, PartialEq, Eq, Structural)]
pub enum Out {
    /// The request was carried out.
    Done,
    /// The answer to a question.
    Bool(bool),
}

impl Out {
    /// What a worker that asked whether a locator is recorded takes this reply
    /// to mean: the answer it carries, and "not recorded" where it carries none.
    pub open spec fn spec_found(self) -> bool {
        match self {
            Out::Done => false,
            Out::Bool(b) => b,
        }
    }

    /// Reads the reply to a [`Query::CheckForUrl`].
    #[verifier::when_used_as_spec(spec_found)]
    pub fn found(self) -> (b: bool)
        ensures
            b == self.spec_found(),
    {
        match self {
            Out::Done => false,
            Out::Bool(b) => b,
        }
    }
}

/// The key of an item-log row: source, item name, item locator.
pub struct ItemKey {
    pub source: Seq<char>,
    pub item_name: Seq<char>,
    pub item_url: Seq<char>,
}

/// One statement against the tables.
#[derive(Debug, Clone)]
pub enum Statement {
    /// Add a row to the table of retrieved locators.
    InsertUrl { url: String, timestamp: i64 },
    /// Count the rows of retrieved locators equal to `url`.
    CountUrl { url: String },
    /// Look up the time at which an item was last checked.
    FindItem { source: String, item_name: String, item_url: String },
    /// Set the time at which an item was last checked, on the rows that exist for it.
    TouchItem { source: String, item_name: String, item_url: String, timestamp: i64 },
    /// Add a row to the item log.
    InsertItem { source: String, item_name: String, item_url: String, timestamp: i64 },
}

/// The mathematical value of a [`Statement`].
pub enum StatementView {
    InsertUrl { url: Seq<char>, timestamp: i64 },
    CountUrl { url: Seq<char> },
    FindItem { key: ItemKey },
    TouchItem { key: ItemKey, timestamp: i64 },
    InsertItem { key: ItemKey, timestamp: i64 },
}

impl View for Statement {
    type V = StatementView;

    open spec fn view(&self) -> StatementView {
        match self {
            Statement::InsertUrl { url, timestamp } => StatementView::InsertUrl {
                url: url@,
                timestamp: *timestamp,
            },
            Statement::CountUrl { url } => StatementView::CountUrl { url: url@ },
            Statement::FindItem { source, item_name, item_url } => StatementView::FindItem {
                key: ItemKey { source: source@, item_name: item_name@, item_url: item_url@ },
            },
            Statement::TouchItem { source, item_name, item_url, timestamp } => {
                StatementView::TouchItem {
                    key: ItemKey { source: source@, item_name: item_name@, item_url: item_url@ },
                    timestamp: *timestamp,
                }
            },
            Statement::InsertItem { source, item_name, item_url, timestamp } => {
                StatementView::InsertItem {
                    key: ItemKey { source: source@, item_name: item_name@, item_url: item_url@ },
                    timestamp: *timestamp,
                }
            },
        }
    }
}

/// What the tables hand back for a statement.
#[derive(Debug, Clone, Copy, PartialEq, Eq, Structural)]
pub enum Answer {
    /// A statement that writes was carried out.
    Written,
    /// The number of rows counted.
    Count(u64),
    /// The time found, if a row exists.
    Found(Option<i64>),
}

/// What the actor does next for the request in hand.
#[derive(Debug, Clone)]
pub enum Step {
    /// Run this statement and come back with its answer.
    Run(Statement),
    /// The request is finished: send this reply.
    Reply(Out),
}

/// The mathematical value of a [`Step`].
pub enum StepView {
    Run(StatementView),
    Reply(Out),
}

impl View for Step {
    type V = StepView;

    open spec fn view(&self) -> StepView {
        match self {
            Step::Run(statement) => StepView::Run(statement@),
            Step::Reply(out) => StepView::Reply(*out),
        }
    }
}

/// The first statement of a request received at time `now`.
pub open spec fn spec_begin(query: QueryView, now: i64) -> StatementView {
    match query {
        QueryView::InsertUrl(url) => StatementView::InsertUrl { url, timestamp: now },
        QueryView::CheckForUrl(url) => StatementView::CountUrl { url },
        QueryView::UpdateNewDownloads(source, item_name, item_url) => StatementView::FindItem {
            key: ItemKey { source, item_name, item_url },
        },
    }
}

/// What follows the answer `answer` in a request received at time `now`.
///
/// Counting ends with whether anything was counted. Looking up an item is
/// followed by setting its time where a row exists and by adding a row where
/// none does. A write ends the request. An answer that fits no statement of
/// the request ends it with [`Out::Done`].
pub open spec fn spec_advance(query: QueryView, now: i64, answer: Answer) -> StepView {
    match (query, answer) {
        (QueryView::CheckForUrl(_), Answer::Count(n)) => StepView::Reply(Out::Bool(n > 0)),
        (QueryView::UpdateNewDownloads(source, item_name, item_url), Answer::Found(Some(_))) => {
            StepView::Run(
                StatementView::TouchItem {
                    key: ItemKey { source, item_name, item_url },
                    timestamp: now,
                },
            )
        },
        (QueryView::UpdateNewDownloads(source, item_name, item_url), Answer::Found(None)) => {
            StepView::Run(
                StatementView::InsertItem {
                    key: ItemKey { source, item_name, item_url },
                    timestamp: now,
                },
            )
        },
        _ => StepView::Reply(Out::Done),
    }
}

/// Names the first statement of a request received at time `now`.
pub fn begin(query: &Query, now: i64) -> (statement: Statement)
    ensures
        statement@ == spec_begin(query@, now),
{
    match query {
        Query::InsertUrl(url) => Statement::InsertUrl { url: url.clone(), timestamp: now },
        Query::CheckForUrl(url) => Statement::CountUrl { url: url.clone() },
        Query::UpdateNewDownloads(source, item_name, item_url) => Statement::FindItem {
            source: source.clone(),
            item_name: item_name.clone(),
            item_url: item_url.clone(),
        },
    }
}

/// Reads the tables' answer and names what follows in the request.
pub fn advance(query: &Query, now: i64, answer: Answer) -> (step: Step)
    ensures
        step@ == spec_advance(query@, now, answer),
{
    match query {
        Query::CheckForUrl(_) => match answer {
            Answer::Count(n) => Step::Reply(Out::Bool(n > 0)),
            _ => Step::Reply(Out::Done),
        },
        Query::UpdateNewDownloads(source, item_name, item_url) => match answer {
            Answer::Found(Some(_)) => Step::Run(
                Statement::TouchItem {
                    source: source.clone(),
                    item_name: item_name.clone(),
                    item_url: item_url.clone(),
                    timestamp: now,
                },
            ),
            Answer::Found(None) => Step::Run(
                Statement::InsertItem {
                    source: source.clone(),
                    item_name: item_name.clone(),
                    item_url: item_url.clone(),
                    timestamp: now,
                },
            ),
            _ => Step::Reply(Out::Done),
        },
        Query::InsertUrl(_) => Step::Reply(Out::Done),
    }
}

} // verus!
