//! Word counting over a byte stream fed in chunks.
//!
//! A word starts exactly on a transition from whitespace-or-start-of-stream
//! to a non-whitespace byte, so the running count is already correct at
//! end-of-stream without any handling of a trailing partial word. The only
//! state carried across chunk boundaries besides the total is the boolean
//! "currently inside a word".

use vstd::prelude::*;

verus! {

/// The ASCII whitespace set: space, tab, line feed, vertical tab,
/// form feed and carriage return.
pub open spec fn is_ascii_space(b: u8) -> bool {
    b == 0x20 || (0x09 <= b && b <= 0x0D)
}

/// State of a word scan: words counted so far, and whether the scan is
/// currently inside a word.
pub struct WordScan {
    pub words: nat,
    pub in_word: bool,
}

/// The initial scan state: nothing counted, not inside a word.
pub open spec fn word_scan_init() -> WordScan {
    WordScan { words: 0, in_word: false }
}

/// One byte's effect on a word scan: a word is counted exactly when a
/// non-whitespace byte arrives while the scan is not inside a word.
pub open spec fn word_step(st: WordScan, b: u8) -> WordScan {
    if is_ascii_space(b) {
        WordScan { words: st.words, in_word: false }
    } else if st.in_word {
        WordScan { words: st.words, in_word: true }
    } else {
        WordScan { words: st.words + 1, in_word: true }
    }
}

/// The word scan continued from state `st` over all of `s`.
pub open spec fn word_scan_from(st: WordScan, s: Seq<u8>) -> WordScan
    decreases s.len(),
{
    if s.len() == 0 {
        st
    } else {
        word_step(word_scan_from(st, s.drop_last()), s.last())
    }
}

/// The word scan of a whole stream, started from the initial state.
pub open spec fn word_scan(s: Seq<u8>) -> WordScan {
    word_scan_from(word_scan_init(), s)
}

/// Scanning a concatenation continues the scan of the first part with the
/// second: word counting is insensitive to where a stream is split into
/// chunks.
pub proof fn lemma_word_scan_concat(st: WordScan, s: Seq<u8>, t: Seq<u8>)
    ensures
        word_scan_from(st, s + t) == word_scan_from(word_scan_from(st, s), t),
    decreases t.len(),
{
    if t.len() == 0 {
        assert(s + t =~= s);
    } else {
        lemma_word_scan_concat(st, s, t.drop_last());
        assert((s + t).drop_last() =~= s + t.drop_last());
    }
}

/// A scan counts at most one word per byte scanned.
pub proof fn lemma_word_scan_le(st: WordScan, s: Seq<u8>)
    ensures
        word_scan_from(st, s).words <= st.words + s.len(),
    decreases s.len(),
{
    if s.len() > 0 {
        lemma_word_scan_le(st, s.drop_last());
    }
}

/// A streaming word counter: a running total plus the in-word flag carried
/// across chunk boundaries.
pub struct WordCounter {
    pub word_count: u64,
    pub in_word: bool,
    /// All bytes fed so far, in arrival order.
    pub fed: Ghost<Seq<u8>>,
}

impl WordCounter {
    /// The counter's fields agree with the word scan of everything fed so
    /// far, and the stream is short enough for the total to fit in `u64`.
    pub open spec fn wf(self) -> bool {
        &&& self.word_count == word_scan(self.fed@).words
        &&& self.in_word == word_scan(self.fed@).in_word
        &&& self.fed@.len() <= u64::MAX
    }

    pub fn new() -> (c: WordCounter)
        ensures
            c.wf(),
            c.fed@ == Seq::<u8>::empty(),
    {
        WordCounter { word_count: 0, in_word: false, fed: Ghost(Seq::empty()) }
    }

    /// Feed one chunk: the history grows by exactly this chunk, and the
    /// running state stays the word scan of the whole history.
    pub fn count_words(&mut self, chunk: &[u8])
        requires
            old(self).wf(),
            old(self).fed@.len() + chunk@.len() <= u64::MAX,
        ensures
            final(self).wf(),
            final(self).fed@ == old(self).fed@ + chunk@,
    {
        let ghost orig: Seq<u8> = self.fed@;
        proof {
            lemma_word_scan_le(word_scan_init(), orig);
            assert(orig + chunk@.take(0) =~= orig);
        }
        let mut i: usize = 0;
        while i < chunk.len()
            invariant
                i <= chunk.len(),
                self.fed@ == orig,
                orig.len() + chunk@.len() <= u64::MAX,
                self.word_count == word_scan(orig + chunk@.take(i as int)).words,
                self.in_word == word_scan(orig + chunk@.take(i as int)).in_word,
                self.word_count <= orig.len() + i,
            decreases chunk.len() - i,
        {
            let b = chunk[i];
            let is_space = b == 0x20 || (0x09 <= b && b <= 0x0D);
            if !is_space && !self.in_word {
                self.word_count = self.word_count + 1;
            }
            self.in_word = !is_space;
            proof {
                assert((orig + chunk@.take(i + 1 as int)).drop_last() =~= orig + chunk@.take(
                    i as int,
                ));
            }
            i = i + 1;
        }
        proof {
            assert(orig + chunk@.take(chunk@.len() as int) =~= orig + chunk@);
        }
        self.fed = Ghost(self.fed@ + chunk@);
    }

    /// The number of words seen across all chunks fed so far.
    pub fn get(&self) -> (r: u64)
        requires
            self.wf(),
        ensures
            r == word_scan(self.fed@).words,
    {
        self.word_count
    }
}

} // verus!
