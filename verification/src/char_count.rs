//! Character counting over a byte stream fed in chunks, by an incremental
//! UTF-8 length state machine.
//!
//! Each byte is classified by its leading bits: ASCII, continuation byte,
//! 2-, 3- or 4-byte lead, or invalid. The decoder keeps only the number of
//! continuation bytes still expected (0 to 3) and a sticky invalid flag, so
//! a multi-byte character split across two chunks is counted exactly once.
//! A lead or ASCII byte that interrupts a pending sequence silently
//! discards the pending sequence rather than flagging it; a continuation
//! byte with no sequence pending, or a byte outside every class, sets the
//! sticky flag. A stream ending mid-sequence never counts the partial
//! character; that trailing state is surfaced through [`Utf8Scan::warning`].

use vstd::prelude::*;

verus! {

/// State of a UTF-8 length scan: completed characters counted so far, the
/// number of continuation bytes still expected in the current multi-byte
/// sequence, and the sticky invalid flag.
pub struct Utf8Scan {
    pub chars: nat,
    pub pending: nat,
    pub invalid: bool,
}

impl Utf8Scan {
    /// Whether, were the stream to end in this state, invalid UTF-8 should
    /// be reported: either an invalid byte was seen, or the stream ends in
    /// the middle of a multi-byte sequence.
    pub open spec fn warning(self) -> bool {
        self.invalid || self.pending != 0
    }
}

/// The initial scan state: nothing counted, no sequence pending, no
/// invalid byte seen.
pub open spec fn utf8_scan_init() -> Utf8Scan {
    Utf8Scan { chars: 0, pending: 0, invalid: false }
}

/// One byte's effect on a UTF-8 length scan, by the byte's leading bits:
/// bytes below `0x80` are ASCII and complete a character by themselves;
/// `0x80..0xBF` are continuation bytes; `0xC0..0xDF`, `0xE0..0xEF` and
/// `0xF0..0xF7` lead sequences of 2, 3 and 4 bytes; `0xF8` and above fit
/// no class.
pub open spec fn utf8_step(st: Utf8Scan, b: u8) -> Utf8Scan {
    if b < 0x80 {
        Utf8Scan { chars: st.chars + 1, pending: 0, invalid: st.invalid }
    } else if b < 0xC0 {
        if st.pending == 0 {
            Utf8Scan { chars: st.chars, pending: 0, invalid: true }
        } else if st.pending == 1 {
            Utf8Scan { chars: st.chars + 1, pending: 0, invalid: st.invalid }
        } else {
            Utf8Scan { chars: st.chars, pending: (st.pending - 1) as nat, invalid: st.invalid }
        }
    } else if b < 0xE0 {
        Utf8Scan { chars: st.chars, pending: 1, invalid: st.invalid }
    } else if b < 0xF0 {
        Utf8Scan { chars: st.chars, pending: 2, invalid: st.invalid }
    } else if b < 0xF8 {
        Utf8Scan { chars: st.chars, pending: 3, invalid: st.invalid }
    } else {
        Utf8Scan { chars: st.chars, pending: 0, invalid: true }
    }
}

/// The UTF-8 length scan continued from state `st` over all of `s`.
pub open spec fn utf8_scan_from(st: Utf8Scan, s: Seq<u8>) -> Utf8Scan
    decreases s.len(),
{
    if s.len() == 0 {
        st
    } else {
        utf8_step(utf8_scan_from(st, s.drop_last()), s.last())
    }
}

/// The UTF-8 length scan of a whole stream, started from the initial state.
pub open spec fn utf8_scan(s: Seq<u8>) -> Utf8Scan {
    utf8_scan_from(utf8_scan_init(), s)
}

/// Scanning a concatenation continues the scan of the first part with the
/// second: character counting is insensitive to where a stream is split
/// into chunks.
pub proof fn lemma_utf8_scan_concat(st: Utf8Scan, s: Seq<u8>, t: Seq<u8>)
    ensures
        utf8_scan_from(st, s + t) == utf8_scan_from(utf8_scan_from(st, s), t),
    decreases t.len(),
{
    if t.len() == 0 {
        assert(s + t =~= s);
    } else {
        lemma_utf8_scan_concat(st, s, t.drop_last());
        assert((s + t).drop_last() =~= s + t.drop_last());
    }
}

/// A scan counts at most one character per byte scanned.
pub proof fn lemma_utf8_scan_le(st: Utf8Scan, s: Seq<u8>)
    ensures
        utf8_scan_from(st, s).chars <= st.chars + s.len(),
    decreases s.len(),
{
    if s.len() > 0 {
        lemma_utf8_scan_le(st, s.drop_last());
    }
}

/// A streaming character counter: a running total of completed characters,
/// the continuation bytes still expected, and the sticky invalid flag, all
/// carried across chunk boundaries.
pub struct CharCounter {
    pub char_count: u64,
    pub remaining_bytes_in_char: usize,
    pub invalid_chars_found: bool,
    /// All bytes fed so far, in arrival order.
    pub fed: Ghost<Seq<u8>>,
}

impl CharCounter {
    /// The counter's fields agree with the UTF-8 length scan of everything
    /// fed so far, and the stream is short enough for the total to fit in
    /// `u64`.
    pub open spec fn wf(self) -> bool {
        &&& self.char_count == utf8_scan(self.fed@).chars
        &&& self.remaining_bytes_in_char == utf8_scan(self.fed@).pending
        &&& self.invalid_chars_found == utf8_scan(self.fed@).invalid
        &&& self.fed@.len() <= u64::MAX
    }

    pub fn new() -> (c: CharCounter)
        ensures
            c.wf(),
            c.fed@ == Seq::<u8>::empty(),
    {
        CharCounter {
            char_count: 0,
            remaining_bytes_in_char: 0,
            invalid_chars_found: false,
            fed: Ghost(Seq::empty()),
        }
    }

    /// Feed one chunk: the history grows by exactly this chunk, and the
    /// running state stays the UTF-8 length scan of the whole history.
    pub fn count_chars(&mut self, chunk: &[u8])
        requires
            old(self).wf(),
            old(self).fed@.len() + chunk@.len() <= u64::MAX,
        ensures
            final(self).wf(),
            final(self).fed@ == old(self).fed@ + chunk@,
    {
        let ghost orig: Seq<u8> = self.fed@;
        proof {
            lemma_utf8_scan_le(utf8_scan_init(), orig);
            assert(orig + chunk@.take(0) =~= orig);
        }
        let mut i: usize = 0;
        while i < chunk.len()
            invariant
                i <= chunk.len(),
                self.fed@ == orig,
                orig.len() + chunk@.len() <= u64::MAX,
                self.char_count == utf8_scan(orig + chunk@.take(i as int)).chars,
                self.remaining_bytes_in_char == utf8_scan(orig + chunk@.take(i as int)).pending,
                self.invalid_chars_found == utf8_scan(orig + chunk@.take(i as int)).invalid,
                self.char_count <= orig.len() + i,
            decreases chunk.len() - i,
        {
            let b = chunk[i];
            if b < 0x80 {
                // ASCII: one complete character, any pending sequence is
                // silently discarded.
                self.char_count = self.char_count + 1;
                self.remaining_bytes_in_char = 0;
            } else if b < 0xC0 {
                // Continuation byte.
                if self.remaining_bytes_in_char == 0 {
                    // A continuation with no sequence pending.
                    self.invalid_chars_found = true;
                } else {
                    self.remaining_bytes_in_char = self.remaining_bytes_in_char - 1;
                    if self.remaining_bytes_in_char == 0 {
                        self.char_count = self.char_count + 1;
                    }
                }
            } else if b < 0xE0 {
                // 2-byte lead.
                self.remaining_bytes_in_char = 1;
            } else if b < 0xF0 {
                // 3-byte lead.
                self.remaining_bytes_in_char = 2;
            } else if b < 0xF8 {
                // 4-byte lead.
                self.remaining_bytes_in_char = 3;
            } else {
                // No UTF-8 class has these leading bits.
                self.invalid_chars_found = true;
                self.remaining_bytes_in_char = 0;
            }
            proof {
                assert((orig + chunk@.take(i + 1 as int)).drop_last() =~= orig + chunk@.take(
                    i as int,
                ));
            }
            i = i + 1;
        }
        proof {
            assert(orig + chunk@.take(chunk@.len() as int) =~= orig + chunk@);
        }
        self.fed = Ghost(self.fed@ + chunk@);
    }

    /// The number of completed characters seen across all chunks fed so far.
    pub fn get(&self) -> (r: u64)
        requires
            self.wf(),
        ensures
            r == utf8_scan(self.fed@).chars,
    {
        self.char_count
    }

    /// Whether invalid UTF-8 should be reported at end-of-stream: an
    /// invalid byte or sequence was seen, or the stream ended in the
    /// middle of a multi-byte sequence.
    pub fn utf8_warning(&self) -> (r: bool)
        requires
            self.wf(),
        ensures
            r == utf8_scan(self.fed@).warning(),
    {
        self.invalid_chars_found || self.remaining_bytes_in_char != 0
    }
}

} // verus!
