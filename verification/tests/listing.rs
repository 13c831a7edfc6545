use hoard::yt_dlp::listing::pair_lines;
use hoard::yt_dlp::listing::parse_entries;
use hoard::yt_dlp::listing::split_lines;
use hoard::yt_dlp::listing::Entry;

fn pairs(entries: &[Entry]) -> Vec<(&str, &str)> {
    entries.iter().map(|entry| (entry.title.as_str(), entry.url.as_str())).collect()
}

#[test]
fn limit_keeps_only_the_first_entries() {
    let entries = parse_entries(b"T1\nu1\nT2\nu2\n", 1);
    assert_eq!(pairs(&entries), vec![("T1", "u1")]);
}

#[test]
fn limit_above_the_count_keeps_all() {
    let entries = parse_entries(b"T1\nu1\nT2\nu2\n", 10);
    assert_eq!(pairs(&entries), vec![("T1", "u1"), ("T2", "u2")]);
    let entries = parse_entries(b"T1\nu1\nT2\nu2\n", 2);
    assert_eq!(pairs(&entries), vec![("T1", "u1"), ("T2", "u2")]);
    let entries = parse_entries(b"T1\nu1\nT2\nu2\n", u64::MAX);
    assert_eq!(pairs(&entries).len(), 2);
}

#[test]
fn limit_zero_keeps_none() {
    assert!(parse_entries(b"T1\nu1\n", 0).is_empty());
}

#[test]
fn empty_output_has_no_entries() {
    assert!(parse_entries(b"", 10).is_empty());
    assert!(split_lines(b"").is_empty());
}

#[test]
fn last_line_without_partner_is_dropped() {
    let entries = parse_entries(b"T1\nu1\nT2\n", 10);
    assert_eq!(pairs(&entries), vec![("T1", "u1")]);
    assert!(parse_entries(b"only a title", 10).is_empty());
}

#[test]
fn last_line_needs_no_line_feed() {
    let entries = parse_entries(b"T1\nu1", 10);
    assert_eq!(pairs(&entries), vec![("T1", "u1")]);
}

#[test]
fn carriage_return_before_line_feed_is_dropped() {
    let entries = parse_entries(b"T1\r\nu1\r\n", 10);
    assert_eq!(pairs(&entries), vec![("T1", "u1")]);
    let lines = split_lines(b"a\r\nb\rc\nd\r");
    assert_eq!(lines, vec![b"a".to_vec(), b"b\rc".to_vec(), b"d\r".to_vec()]);
}

#[test]
fn empty_lines_count_as_lines() {
    let lines = split_lines(b"\n\na\n");
    assert_eq!(lines, vec![Vec::<u8>::new(), Vec::<u8>::new(), b"a".to_vec()]);
    let entries = parse_entries(b"\nu1\n", 10);
    assert_eq!(pairs(&entries), vec![("", "u1")]);
}

#[test]
fn pair_with_a_line_that_is_not_utf8_is_passed_over() {
    let entries = parse_entries(b"T1\n\xff\xfe\nT2\nu2\n", 10);
    assert_eq!(pairs(&entries), vec![("T2", "u2")]);
    let entries = parse_entries(b"\xc3\nu1\nT2\nu2\n", 10);
    assert_eq!(pairs(&entries), vec![("T2", "u2")]);
}

#[test]
fn titles_are_decoded_as_utf8() {
    let entries = parse_entries("Édition spéciale — 日本語\nhttps://x/é\n".as_bytes(), 10);
    assert_eq!(pairs(&entries), vec![("Édition spéciale — 日本語", "https://x/é")]);
    assert_eq!(entries[0].title.chars().count(), 22);
}

#[test]
fn pair_lines_pairs_in_order() {
    let lines = vec![b"a".to_vec(), b"b".to_vec(), b"c".to_vec(), b"d".to_vec(), b"e".to_vec()];
    let entries = pair_lines(&lines);
    assert_eq!(pairs(&entries), vec![("a", "b"), ("c", "d")]);
}
