use ccwc::scan::CounterSelection;
use ccwc::scan::StreamScanner;
use ccwc::scan::resolve_selection;

fn all_enabled() -> CounterSelection {
    CounterSelection { bytes: true, chars: true, lines: true, words: true }
}

#[test]
fn end_to_end_hello_world() {
    let mut scanner = StreamScanner::new(all_enabled(), None);
    scanner.feed_chunk(b"hello world\n");
    let totals = scanner.totals();
    assert_eq!(totals.lines, 1);
    assert_eq!(totals.words, 2);
    assert_eq!(totals.chars, 12);
    assert_eq!(totals.bytes, 12);
    assert!(!totals.utf8_warning);
}

#[test]
fn end_to_end_one_chunk_vs_many() {
    let mut whole = StreamScanner::new(all_enabled(), None);
    whole.feed_chunk(b"one two\nthree four\n");
    let t_whole = whole.totals();

    let mut split = StreamScanner::new(all_enabled(), None);
    split.feed_chunk(b"one tw");
    split.feed_chunk(b"o\nthre");
    split.feed_chunk(b"");
    split.feed_chunk(b"e four\n");
    let t_split = split.totals();

    assert_eq!(t_whole.lines, t_split.lines);
    assert_eq!(t_whole.words, t_split.words);
    assert_eq!(t_whole.chars, t_split.chars);
    assert_eq!(t_whole.bytes, t_split.bytes);
    assert_eq!(t_whole.lines, 2);
    assert_eq!(t_whole.words, 4);
    assert_eq!(t_whole.chars, 19);
    assert_eq!(t_whole.bytes, 19);
}

#[test]
fn scanner_uses_size_hint_for_bytes() {
    let mut scanner = StreamScanner::new(all_enabled(), Some(42));
    scanner.feed_chunk(b"0123456789");
    let totals = scanner.totals();
    assert_eq!(totals.bytes, 42);
    assert_eq!(totals.chars, 10);
}

#[test]
fn disabled_counters_stay_at_zero() {
    let sel = CounterSelection { bytes: true, chars: false, lines: true, words: false };
    let mut scanner = StreamScanner::new(sel, None);
    scanner.feed_chunk(b"two words\n");
    let totals = scanner.totals();
    assert_eq!(totals.bytes, 10);
    assert_eq!(totals.lines, 1);
    assert_eq!(totals.chars, 0);
    assert_eq!(totals.words, 0);
}

#[test]
fn selection_defaults_when_no_flag_given() {
    let sel = resolve_selection(false, false, false, false);
    assert!(sel.bytes);
    assert!(!sel.chars);
    assert!(sel.lines);
    assert!(sel.words);
}

#[test]
fn selection_taken_as_given_when_any_flag_set() {
    let sel = resolve_selection(false, true, false, false);
    assert!(!sel.bytes);
    assert!(sel.chars);
    assert!(!sel.lines);
    assert!(!sel.words);
}
