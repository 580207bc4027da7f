use vstd::prelude::*;

verus! {

/// Size of the buffer that one read of a chunked transfer fills: 32 KiB.
pub const BUFFER_SIZE: u64 = 32768;

pub open spec fn min_spec(a: u64, b: u64) -> u64 {
    if a < b {
        a
    } else {
        b
    }
}

/// The smaller of two byte counts.
pub fn min(a: u64, b: u64) -> (r: u64)
    ensures
        r == min_spec(a, b),
{
    if a < b {
        return a;
    }
    b
}

/// Bookkeeping of one chunked transfer: at most `requested` bytes are moved
/// from a reader to a writer through a buffer of `BUFFER_SIZE` bytes.
///
/// The caller reads `next_read_len()` bytes, reports the outcome with
/// `on_read`, writes what was read while `on_read` says to go on, and ends
/// with `transferred()`. A failed write ends the transfer with that error.
#[derive(Clone, Copy, Debug, PartialEq, Eq, Structural)]
pub struct ChunkTransfer {
    pub requested: u64,
    pub remaining: u64,
}

impl ChunkTransfer {
    pub open spec fn wf(self) -> bool {
        self.remaining <= self.requested
    }

    /// Bytes moved so far.
    pub open spec fn spec_transferred(self) -> int {
        self.requested - self.remaining
    }

    /// A transfer of up to `bytes_to_read` bytes that has not started.
    pub fn new(bytes_to_read: u64) -> (r: ChunkTransfer)
        ensures
            r.wf(),
            r.requested == bytes_to_read,
            r.remaining == bytes_to_read,
            r.spec_transferred() == 0,
    {
        ChunkTransfer { requested: bytes_to_read, remaining: bytes_to_read }
    }

    /// How many bytes the next read may fill: the remaining count, bounded
    /// by the buffer.
    pub fn next_read_len(&self) -> (r: u64)
        ensures
            r == min_spec(self.remaining, BUFFER_SIZE),
    {
        min(self.remaining, BUFFER_SIZE)
    }

    /// Records the outcome of a read: `Some(n)` when it returned `n` bytes,
    /// `None` when it failed. A failed read, an empty read or an exhausted
    /// count ends the transfer (result `false`) and leaves the count as it
    /// was; otherwise the `n` bytes are counted and are to be written.
    pub fn on_read(&mut self, outcome: Option<u64>) -> (more: bool)
        requires
            old(self).wf(),
            outcome matches Some(n) ==> n <= min_spec(old(self).remaining, BUFFER_SIZE),
        ensures
            final(self).wf(),
            final(self).requested == old(self).requested,
            more == (outcome matches Some(n) && n > 0 && old(self).remaining > 0),
            more ==> final(self).remaining == old(self).remaining - outcome->Some_0,
            !more ==> *final(self) == *old(self),
    {
        match outcome {
            Some(n) => {
                if n == 0 || self.remaining == 0 {
                    false
                } else {
                    self.remaining = self.remaining - n;
                    true
                }
            },
            None => false,
        }
    }

    /// Bytes moved: the requested count less what was never read.
    pub fn transferred(&self) -> (r: u64)
        requires
            self.wf(),
        ensures
            r == self.spec_transferred(),
            r <= self.requested,
    {
        self.requested - self.remaining
    }
}

} // verus!
