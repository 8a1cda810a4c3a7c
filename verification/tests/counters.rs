use ccwc::byte_count::ByteCounter;
use ccwc::char_count::CharCounter;
use ccwc::line_count::NewlineCounter;
use ccwc::word_count::WordCounter;

fn lines_of(chunks: &[&[u8]]) -> u64 {
    let mut c = NewlineCounter::new();
    for chunk in chunks {
        c.count_newlines(chunk);
    }
    c.get()
}

fn words_of(chunks: &[&[u8]]) -> u64 {
    let mut c = WordCounter::new();
    for chunk in chunks {
        c.count_words(chunk);
    }
    c.get()
}

fn chars_of(chunks: &[&[u8]]) -> (u64, bool) {
    let mut c = CharCounter::new();
    for chunk in chunks {
        c.count_chars(chunk);
    }
    (c.get(), c.utf8_warning())
}

#[test]
fn lines_simple() {
    assert_eq!(lines_of(&[b"a\nb\nc"]), 2);
}

#[test]
fn lines_empty() {
    assert_eq!(lines_of(&[b""]), 0);
    assert_eq!(lines_of(&[]), 0);
}

#[test]
fn lines_only_newlines() {
    assert_eq!(lines_of(&[b"\n\n\n"]), 3);
}

#[test]
fn lines_split_across_chunks() {
    assert_eq!(lines_of(&[b"a\nb", b"\nc\n"]), 3);
    assert_eq!(lines_of(&[b"a\nb\nc\n"]), 3);
}

#[test]
fn words_simple() {
    assert_eq!(words_of(&[b"  foo   bar  "]), 2);
}

#[test]
fn words_empty() {
    assert_eq!(words_of(&[b""]), 0);
}

#[test]
fn words_single() {
    assert_eq!(words_of(&[b"foo"]), 1);
}

#[test]
fn words_split_mid_word() {
    // A word spanning the chunk boundary is neither double-counted nor
    // missed.
    assert_eq!(words_of(&[b"fo", b"o bar"]), 2);
}

#[test]
fn words_all_ascii_whitespace_kinds() {
    assert_eq!(words_of(&[b"a\tb\nc\x0bd\x0ce\rf g"]), 7);
}

#[test]
fn chars_ascii() {
    let (n, warn) = chars_of(&[b"hello"]);
    assert_eq!(n, 5);
    assert!(!warn);
}

#[test]
fn chars_multibyte_whole_vs_split() {
    // "h", then the euro sign (three bytes), then "i": 3 characters.
    let whole: &[u8] = &[0x68, 0xE2, 0x82, 0xAC, 0x69];
    let (n_whole, warn_whole) = chars_of(&[whole]);
    assert_eq!(n_whole, 3);
    assert!(!warn_whole);

    // The same bytes split in the middle of the three-byte character.
    let first: &[u8] = &[0x68, 0xE2];
    let second: &[u8] = &[0x82, 0xAC, 0x69];
    let (n_split, warn_split) = chars_of(&[first, second]);
    assert_eq!(n_split, n_whole);
    assert!(!warn_split);
}

#[test]
fn chars_counts_scalar_values_not_bytes() {
    // Two two-byte characters: 4 bytes, 2 characters.
    let bytes: &[u8] = &[0xC3, 0xA9, 0xC3, 0xA8];
    let (n, warn) = chars_of(&[bytes]);
    assert_eq!(n, 2);
    assert!(!warn);
}

#[test]
fn chars_stream_ends_mid_sequence() {
    // A three-byte lead followed by only one continuation byte at
    // end-of-stream: the partial character is not counted, and the
    // warning is raised.
    let bytes: &[u8] = &[0x61, 0xE2, 0x82];
    let (n, warn) = chars_of(&[bytes]);
    assert_eq!(n, 1);
    assert!(warn);
}

#[test]
fn chars_continuation_without_lead() {
    let bytes: &[u8] = &[0x80, 0x61];
    let (n, warn) = chars_of(&[bytes]);
    assert_eq!(n, 1);
    assert!(warn);
}

#[test]
fn chars_byte_outside_every_class() {
    let bytes: &[u8] = &[0xF8, 0x61];
    let (n, warn) = chars_of(&[bytes]);
    assert_eq!(n, 1);
    assert!(warn);
}

#[test]
fn chars_ascii_interrupting_pending_sequence() {
    // An ASCII byte that interrupts a pending multi-byte sequence silently
    // discards the pending sequence: no warning, and the dropped lead is
    // not counted.
    let bytes: &[u8] = &[0xE2, 0x61];
    let (n, warn) = chars_of(&[bytes]);
    assert_eq!(n, 1);
    assert!(!warn);
}

#[test]
fn chars_lead_interrupting_pending_sequence() {
    // A new lead byte overwrites an unterminated sequence silently; the
    // second sequence then completes and is the only character counted.
    let bytes: &[u8] = &[0xE2, 0xC3, 0xA9];
    let (n, warn) = chars_of(&[bytes]);
    assert_eq!(n, 1);
    assert!(!warn);
}

#[test]
fn bytes_hint_wins_over_chunks() {
    // Size hint of 42 with chunks totaling 40: the hint is reported.
    let mut with_hint = ByteCounter::new(Some(42));
    with_hint.count_bytes(16);
    with_hint.count_bytes(24);
    assert_eq!(with_hint.get(), 42);

    let mut without_hint = ByteCounter::new(None);
    without_hint.count_bytes(16);
    without_hint.count_bytes(24);
    assert_eq!(without_hint.get(), 40);
}

#[test]
fn bytes_no_hint_empty() {
    let c = ByteCounter::new(None);
    assert_eq!(c.get(), 0);
}
