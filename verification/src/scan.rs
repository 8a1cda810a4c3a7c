//! The single-pass driver: dispatches each arriving chunk to every enabled
//! counter, in a fixed order, and exposes the final totals.
//!
//! The caller owns the reading: it pulls bounded chunks from its source and
//! feeds each one here, stopping on a zero-length read or propagating a
//! read error itself. This keeps the whole pass in bounded memory while
//! every enabled counter sees exactly the same bytes in arrival order.

use vstd::prelude::*;

use crate::byte_count::ByteCounter;
use crate::char_count::CharCounter;
use crate::char_count::utf8_scan;
use crate::line_count::NEWLINE;
use crate::line_count::NewlineCounter;
use crate::line_count::occurrences;
use crate::word_count::WordCounter;
use crate::word_count::word_scan;

verus! {

/// Which of the four counters are active for a run.
#[derive(Clone, Copy, PartialEq, Eq, Structural)]
pub struct CounterSelection {
    pub bytes: bool,
    pub chars: bool,
    pub lines: bool,
    pub words: bool,
}

/// Resolve the command-line flags into the active set once, before the
/// scan: if no flag was given, the default set is bytes, lines and words,
/// with characters excluded; otherwise the flags are taken as they are.
pub fn resolve_selection(bytes: bool, chars: bool, lines: bool, words: bool) -> (sel:
    CounterSelection)
    ensures
        (bytes || chars || lines || words) ==> sel == (CounterSelection {
            bytes,
            chars,
            lines,
            words,
        }),
        !(bytes || chars || lines || words) ==> sel == (CounterSelection {
            bytes: true,
            chars: false,
            lines: true,
            words: true,
        }),
{
    if !(bytes || chars || lines || words) {
        CounterSelection { bytes: true, chars: false, lines: true, words: true }
    } else {
        CounterSelection { bytes, chars, lines, words }
    }
}

/// The final totals of a run, together with the UTF-8 validity warning
/// (meaningful only where the character counter was active).
pub struct Totals {
    pub lines: u64,
    pub words: u64,
    pub chars: u64,
    pub bytes: u64,
    pub utf8_warning: bool,
}

/// One pass over a stream: the four counters, the active set, and the
/// bytes fed so far.
pub struct StreamScanner {
    pub sel: CounterSelection,
    pub byte_counter: ByteCounter,
    pub char_counter: CharCounter,
    pub newline_counter: NewlineCounter,
    pub word_counter: WordCounter,
    /// All bytes fed so far, in arrival order.
    pub fed: Ghost<Seq<u8>>,
}

impl StreamScanner {
    /// Every counter is well formed, and every enabled counter has seen
    /// exactly the bytes fed to the scanner.
    pub open spec fn wf(self) -> bool {
        &&& self.byte_counter.wf()
        &&& self.char_counter.wf()
        &&& self.newline_counter.wf()
        &&& self.word_counter.wf()
        &&& self.sel.bytes ==> self.byte_counter.fed_len@ == self.fed@.len()
        &&& self.sel.chars ==> self.char_counter.fed@ == self.fed@
        &&& self.sel.lines ==> self.newline_counter.fed@ == self.fed@
        &&& self.sel.words ==> self.word_counter.fed@ == self.fed@
        &&& self.fed@.len() <= u64::MAX
    }

    /// Create a scanner for one run: the active set and the byte counter's
    /// size hint are fixed here and never change.
    pub fn new(sel: CounterSelection, size_hint: Option<u64>) -> (s: StreamScanner)
        ensures
            s.wf(),
            s.sel == sel,
            s.byte_counter.hint@ == size_hint,
            s.fed@ == Seq::<u8>::empty(),
    {
        StreamScanner {
            sel,
            byte_counter: ByteCounter::new(size_hint),
            char_counter: CharCounter::new(),
            newline_counter: NewlineCounter::new(),
            word_counter: WordCounter::new(),
            fed: Ghost(Seq::empty()),
        }
    }

    /// Dispatch one non-empty (or empty) chunk to every enabled counter, in
    /// a fixed order; disabled counters are left untouched.
    pub fn feed_chunk(&mut self, chunk: &[u8])
        requires
            old(self).wf(),
            old(self).fed@.len() + chunk@.len() <= u64::MAX,
        ensures
            final(self).wf(),
            final(self).fed@ == old(self).fed@ + chunk@,
            final(self).sel == old(self).sel,
            final(self).byte_counter.hint@ == old(self).byte_counter.hint@,
            !old(self).sel.bytes ==> final(self).byte_counter == old(self).byte_counter,
            !old(self).sel.chars ==> final(self).char_counter == old(self).char_counter,
            !old(self).sel.lines ==> final(self).newline_counter == old(self).newline_counter,
            !old(self).sel.words ==> final(self).word_counter == old(self).word_counter,
    {
        if self.sel.bytes {
            self.byte_counter.count_bytes(chunk.len());
        }
        if self.sel.chars {
            self.char_counter.count_chars(chunk);
        }
        if self.sel.lines {
            self.newline_counter.count_newlines(chunk);
        }
        if self.sel.words {
            self.word_counter.count_words(chunk);
        }
        self.fed = Ghost(self.fed@ + chunk@);
    }

    /// Chunk-boundary invariance: two runs with the same active set and
    /// the same size hint that were fed the same bytes overall — however
    /// differently those bytes were split into chunks — hold identical
    /// counter states, and so report identical totals.
    pub proof fn lemma_chunk_boundary_invariance(a: StreamScanner, b: StreamScanner)
        requires
            a.wf(),
            b.wf(),
            a.sel == b.sel,
            a.byte_counter.hint@ == b.byte_counter.hint@,
            a.fed@ == b.fed@,
        ensures
            a.sel.lines ==> a.newline_counter.line_count == b.newline_counter.line_count,
            a.sel.words ==> a.word_counter.word_count == b.word_counter.word_count,
            a.sel.words ==> a.word_counter.in_word == b.word_counter.in_word,
            a.sel.chars ==> a.char_counter.char_count == b.char_counter.char_count,
            a.sel.chars ==> a.char_counter.remaining_bytes_in_char
                == b.char_counter.remaining_bytes_in_char,
            a.sel.chars ==> a.char_counter.invalid_chars_found
                == b.char_counter.invalid_chars_found,
            a.sel.bytes ==> a.byte_counter.byte_count == b.byte_counter.byte_count,
    {
    }

    /// Read off the final totals: for each enabled counter, the value its
    /// meaning pins to the bytes fed, and the UTF-8 warning where the
    /// character counter was enabled.
    pub fn totals(&self) -> (t: Totals)
        requires
            self.wf(),
        ensures
            self.sel.lines ==> t.lines == occurrences(self.fed@, NEWLINE),
            self.sel.words ==> t.words == word_scan(self.fed@).words,
            self.sel.chars ==> t.chars == utf8_scan(self.fed@).chars,
            self.sel.chars ==> t.utf8_warning == utf8_scan(self.fed@).warning(),
            self.sel.bytes ==> t.bytes == self.byte_counter.total(),
    {
        Totals {
            lines: self.newline_counter.get(),
            words: self.word_counter.get(),
            chars: self.char_counter.get(),
            bytes: self.byte_counter.get(),
            utf8_warning: self.char_counter.utf8_warning(),
        }
    }
}

} // verus!
