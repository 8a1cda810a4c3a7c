//! Byte counting over a byte stream fed in chunks.
//!
//! Two modes, fixed when the counter is created: if a reliable total-size
//! hint is known up front (for example from file metadata), that value is
//! reported and chunk lengths are never summed — the hint wins even if the
//! bytes actually read differ; otherwise chunk lengths are accumulated as
//! they arrive.

use vstd::prelude::*;

verus! {

/// A streaming byte counter: either a fixed total taken from a size hint,
/// or a running sum of chunk lengths.
pub struct ByteCounter {
    pub metadata_found: bool,
    pub byte_count: u64,
    /// The size hint the counter was created with, if any.
    pub hint: Ghost<Option<u64>>,
    /// The total length of all chunks fed so far.
    pub fed_len: Ghost<nat>,
}

impl ByteCounter {
    /// The total the counter reports: the size hint where one was given,
    /// else the number of bytes actually fed.
    pub open spec fn total(self) -> nat {
        match self.hint@ {
            Some(h) => h as nat,
            None => self.fed_len@,
        }
    }

    /// The mode flag matches the hint, and the running field holds the
    /// reported total; without a hint that total is the fed length, which
    /// must still fit in `u64`.
    pub open spec fn wf(self) -> bool {
        &&& self.metadata_found == (self.hint@ matches Some(_))
        &&& self.byte_count == self.total()
        &&& (self.hint@ matches None ==> self.fed_len@ <= u64::MAX)
    }

    /// Create a counter, fixing its mode: with `Some` size hint the hint is
    /// reported as the total for the whole run, with `None` chunk lengths
    /// are summed.
    pub fn new(size_hint: Option<u64>) -> (c: ByteCounter)
        ensures
            c.wf(),
            c.hint@ == size_hint,
            c.fed_len@ == 0,
    {
        match size_hint {
            None => ByteCounter {
                metadata_found: false,
                byte_count: 0,
                hint: Ghost(size_hint),
                fed_len: Ghost(0),
            },
            Some(n) => ByteCounter {
                metadata_found: true,
                byte_count: n,
                hint: Ghost(size_hint),
                fed_len: Ghost(0),
            },
        }
    }

    /// Record one chunk's length. With a size hint the total is unchanged;
    /// without one it grows by exactly `bytes_read`.
    pub fn count_bytes(&mut self, bytes_read: usize)
        requires
            old(self).wf(),
            old(self).hint@ matches None ==> old(self).fed_len@ + bytes_read <= u64::MAX,
        ensures
            final(self).wf(),
            final(self).fed_len@ == old(self).fed_len@ + bytes_read,
            final(self).hint@ == old(self).hint@,
    {
        if !self.metadata_found {
            self.byte_count = self.byte_count + bytes_read as u64;
        }
        self.fed_len = Ghost(self.fed_len@ + bytes_read as nat);
    }

    /// The reported byte total: the size hint where one was given, else the
    /// sum of all chunk lengths fed so far.
    pub fn get(&self) -> (r: u64)
        requires
            self.wf(),
        ensures
            r == self.total(),
    {
        self.byte_count
    }
}

} // verus!
