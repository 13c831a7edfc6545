//! Reading what the lister prints: one line with a title, one with its
//! locator, and so on, most recent entry first.

use vstd::prelude::*;
use vstd::slice::slice_subrange;
use vstd::slice::slice_to_vec;
use vstd::utf8::decode_utf8;
use vstd::utf8::valid_utf8;

use crate::text::utf8_text;

verus! {

/// One listed entry of an item.
#[derive(Debug, Clone)]
pub struct Entry {
    pub title: String,
    pub url: String,
}

/// The mathematical value of an [`Entry`].
pub struct EntryView {
    pub title: Seq<char>,
    pub url: Seq<char>,
}

impl View for Entry {
    type V = EntryView;

    open spec fn view(&self) -> EntryView {
        EntryView { title: self.title@, url: self.url@ }
    }
}

/// The values of a list of entries, in order.
pub open spec fn entry_views(entries: Seq<Entry>) -> Seq<EntryView> {
    Seq::new(entries.len(), |i: int| entries[i]@)
}

/// The line feed, which ends a line.
pub const LINE_FEED: u8 = 10;

/// The carriage return, which may stand before a line feed.
pub const CARRIAGE_RETURN: u8 = 13;

/// The number of bytes before the first line feed, or the number of all bytes
/// where there is none.
pub open spec fn line_end(bytes: Seq<u8>) -> int
    decreases bytes.len(),
{
    if bytes.len() == 0 || bytes[0] == LINE_FEED {
        0
    } else {
        1 + line_end(bytes.drop_first())
    }
}

/// A line without the carriage return at its end, if it has one.
pub open spec fn without_return(line: Seq<u8>) -> Seq<u8> {
    if line.len() > 0 && line.last() == CARRIAGE_RETURN {
        line.drop_last()
    } else {
        line
    }
}

/// The lines of a text. A line ends with a line feed, which is not part of
/// it, nor is a carriage return just before the line feed. What follows the
/// last line feed is a line too, as it stands, unless it is empty.
pub open spec fn lines(bytes: Seq<u8>) -> Seq<Seq<u8>>
    decreases bytes.len(),
{
    let end = line_end(bytes);
    if bytes.len() == 0 {
        Seq::empty()
    } else if 0 <= end < bytes.len() {
        seq![without_return(bytes.take(end))] + lines(bytes.skip(end + 1))
    } else {
        seq![bytes]
    }
}

/// The entries that a sequence of lines holds: each two lines are the title
/// and the locator of one entry. A pair of which either line is not UTF-8
/// gives no entry, and neither does a last line without a partner.
pub open spec fn paired(lines: Seq<Seq<u8>>) -> Seq<EntryView>
    decreases lines.len(),
{
    if lines.len() < 2 {
        Seq::empty()
    } else if valid_utf8(lines[0]) && valid_utf8(lines[1]) {
        seq![EntryView { title: decode_utf8(lines[0]), url: decode_utf8(lines[1]) }] + paired(
            lines.skip(2),
        )
    } else {
        paired(lines.skip(2))
    }
}

/// The first `limit` of a list, or all of it where it is no longer.
pub open spec fn capped<T>(list: Seq<T>, limit: u64) -> Seq<T> {
    if list.len() <= limit {
        list
    } else {
        list.take(limit as int)
    }
}

/// The entries that the lister's output holds, cut to the first `limit`.
pub open spec fn listed(stdout: Seq<u8>, limit: u64) -> Seq<EntryView> {
    capped(paired(lines(stdout)), limit)
}

/// The first line feed stands after `n` bytes where none of these is one and
/// the next is, or the text ends there.
proof fn lemma_line_end(bytes: Seq<u8>, n: int)
    requires
        0 <= n <= bytes.len(),
        forall|k: int| 0 <= k < n ==> bytes[k] != LINE_FEED,
        n == bytes.len() || bytes[n] == LINE_FEED,
    ensures
        line_end(bytes) == n,
    decreases bytes.len(),
{
    if n > 0 {
        assert(bytes[0] != LINE_FEED);
        lemma_line_end(bytes.drop_first(), n - 1);
    }
}

/// The contents of a list of lines.
pub open spec fn line_views(lines: Seq<Vec<u8>>) -> Seq<Seq<u8>> {
    Seq::new(lines.len(), |i: int| lines[i]@)
}

/// Splits a text into its lines.
pub fn split_lines(bytes: &[u8]) -> (found: Vec<Vec<u8>>)
    ensures
        line_views(found@) == lines(bytes@),
{
    let mut found: Vec<Vec<u8>> = Vec::new();
    let mut start: usize = 0;
    assert(bytes@.skip(0) =~= bytes@);
    assert(line_views(found@) =~= Seq::empty());
    while start < bytes.len()
        invariant
            start <= bytes.len(),
            lines(bytes@) == line_views(found@) + lines(bytes@.skip(start as int)),
        decreases bytes.len() - start,
    {
        let ghost rest = bytes@.skip(start as int);
        let mut end: usize = start;
        while end < bytes.len() && bytes[end] != LINE_FEED
            invariant
                start <= end <= bytes.len(),
                forall|k: int| start <= k < end ==> bytes[k] != LINE_FEED,
            decreases bytes.len() - end,
        {
            end = end + 1;
        }
        proof {
            lemma_line_end(rest, end - start);
        }
        let ghost before = line_views(found@);
        if end < bytes.len() {
            let mut stop: usize = end;
            if start < end && bytes[end - 1] == CARRIAGE_RETURN {
                stop = end - 1;
            }
            let line = slice_to_vec(slice_subrange(bytes, start, stop));
            assert(line@ =~= without_return(rest.take(end - start)));
            found.push(line);
            assert(rest.skip(end - start + 1) =~= bytes@.skip(end + 1));
            assert(line_views(found@) =~= before + seq![line@]);
            start = end + 1;
        } else {
            let line = slice_to_vec(slice_subrange(bytes, start, end));
            assert(line@ =~= rest);
            found.push(line);
            assert(line_views(found@) =~= before + seq![line@]);
            start = end;
            assert(lines(bytes@.skip(start as int)) =~= Seq::empty());
        }
    }
    assert(lines(bytes@.skip(start as int)) =~= Seq::empty());
    found
}

/// Pairs lines up into entries.
pub fn pair_lines(found: &Vec<Vec<u8>>) -> (entries: Vec<Entry>)
    ensures
        entry_views(entries@) == paired(line_views(found@)),
{
    let mut entries: Vec<Entry> = Vec::new();
    let mut at: usize = 0;
    let ghost all = line_views(found@);
    assert(all.skip(0) =~= all);
    assert(entry_views(entries@) =~= Seq::empty());
    while found.len() - at >= 2
        invariant
            at <= found.len(),
            all == line_views(found@),
            paired(all) == entry_views(entries@) + paired(all.skip(at as int)),
        decreases found.len() - at,
    {
        let ghost rest = all.skip(at as int);
        let ghost before = entry_views(entries@);
        assert(rest[0] == found[at as int]@);
        assert(rest[1] == found[at + 1]@);
        assert(rest.skip(2) =~= all.skip(at + 2));
        let title = utf8_text(found[at].as_slice());
        let url = utf8_text(found[at + 1].as_slice());
        match (title, url) {
            (Some(title), Some(url)) => {
                let entry = Entry { title, url };
                entries.push(entry);
                assert(entry_views(entries@) =~= before + seq![entry@]);
            },
            _ => {},
        }
        at = at + 2;
    }
    assert(paired(all.skip(at as int)) =~= Seq::empty());
    entries
}

/// Reads the lister's output: the entries it holds, most recent first, cut
/// to the first `limit`.
pub fn parse_entries(stdout: &[u8], limit: u64) -> (entries: Vec<Entry>)
    ensures
        entry_views(entries@) == listed(stdout@, limit),
{
    let found = split_lines(stdout);
    let mut entries = pair_lines(&found);
    let ghost all = entry_views(entries@);
    if entries.len() as u64 > limit {
        entries.truncate(limit as usize);
        assert(entry_views(entries@) =~= all.take(limit as int));
    }
    entries
}

} // verus!
