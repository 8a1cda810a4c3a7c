//! Line counting over a byte stream fed in chunks.
//!
//! Lines are counted POSIX-style, as occurrences of the newline byte
//! `0x0A`: a final line without a terminator is not counted. The scan of
//! each chunk is a pure occurrence count with no cross-chunk state beyond
//! the running total.

use vstd::prelude::*;

verus! {

/// The newline byte.
pub const NEWLINE: u8 = 0x0A;

/// How many times byte `b` occurs in `s`.
pub open spec fn occurrences(s: Seq<u8>, b: u8) -> nat
    decreases s.len(),
{
    if s.len() == 0 {
        0
    } else {
        occurrences(s.drop_last(), b) + (if s.last() == b {
            1nat
        } else {
            0nat
        })
    }
}

/// A byte occurs at most once per position.
pub proof fn lemma_occurrences_le_len(s: Seq<u8>, b: u8)
    ensures
        occurrences(s, b) <= s.len(),
    decreases s.len(),
{
    if s.len() > 0 {
        lemma_occurrences_le_len(s.drop_last(), b);
    }
}

/// Occurrence counts add up over concatenation: line counting is
/// insensitive to where a stream is split into chunks.
pub proof fn lemma_occurrences_concat(s: Seq<u8>, t: Seq<u8>, b: u8)
    ensures
        occurrences(s + t, b) == occurrences(s, b) + occurrences(t, b),
    decreases t.len(),
{
    if t.len() == 0 {
        assert(s + t =~= s);
    } else {
        lemma_occurrences_concat(s, t.drop_last(), b);
        assert((s + t).drop_last() =~= s + t.drop_last());
    }
}

/// Relies on `memchr::memchr_iter`, whose iterator yields all occurrences
/// of the needle byte in the haystack; counting them gives the number of
/// positions at which the needle occurs.
#[verifier::external_body]
fn count_occurrences(needle: u8, haystack: &[u8]) -> (n: usize)
    ensures
        n == occurrences(haystack@, needle),
{
    memchr::memchr_iter(needle, haystack).count()
}

/// A streaming line counter: a running count of newline bytes seen.
pub struct NewlineCounter {
    pub line_count: u64,
    /// All bytes fed so far, in arrival order.
    pub fed: Ghost<Seq<u8>>,
}

impl NewlineCounter {
    /// The running total is the number of newline bytes in everything fed
    /// so far, and the stream is short enough for it to fit in `u64`.
    pub open spec fn wf(self) -> bool {
        &&& self.line_count == occurrences(self.fed@, NEWLINE)
        &&& self.fed@.len() <= u64::MAX
    }

    pub fn new() -> (c: NewlineCounter)
        ensures
            c.wf(),
            c.fed@ == Seq::<u8>::empty(),
    {
        NewlineCounter { line_count: 0, fed: Ghost(Seq::empty()) }
    }

    /// Feed one chunk: the history grows by exactly this chunk, and the
    /// running total stays the newline count of the whole history.
    pub fn count_newlines(&mut self, chunk: &[u8])
        requires
            old(self).wf(),
            old(self).fed@.len() + chunk@.len() <= u64::MAX,
        ensures
            final(self).wf(),
            final(self).fed@ == old(self).fed@ + chunk@,
    {
        let n = count_occurrences(NEWLINE, chunk);
        proof {
            lemma_occurrences_le_len(self.fed@, NEWLINE);
            lemma_occurrences_le_len(chunk@, NEWLINE);
            lemma_occurrences_concat(self.fed@, chunk@, NEWLINE);
        }
        self.line_count = self.line_count + n as u64;
        self.fed = Ghost(self.fed@ + chunk@);
    }

    /// The number of newline bytes seen across all chunks fed so far.
    pub fn get(&self) -> (r: u64)
        requires
            self.wf(),
        ensures
            r == occurrences(self.fed@, NEWLINE),
    {
        self.line_count
    }
}

} // verus!
