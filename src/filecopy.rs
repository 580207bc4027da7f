use vstd::prelude::*;
use crate::chunk::{min, min_spec};
use crate::error::CopyError;
use crate::options::TransferStats;

verus! {

/// How the destination file of a single-file copy is opened.
#[derive(Clone, Copy, Debug, PartialEq, Eq, Structural)]
pub enum DestinationPlan {
    /// The destination does not exist: create its missing parent
    /// directories, then create it with the source's mode.
    CreateNew,
    /// The destination exists and is overwritten: open it truncated, with
    /// the source's mode.
    Overwrite,
    /// The destination exists and is continued: open it for appending, with
    /// its own mode, and skip its length in the source.
    Continue,
}

pub open spec fn spec_plan(dst_exists: bool, force: bool, resume: bool) -> Result<
    DestinationPlan,
    CopyError,
> {
    if !dst_exists {
        Ok(DestinationPlan::CreateNew)
    } else if resume {
        Ok(DestinationPlan::Continue)
    } else if force {
        Ok(DestinationPlan::Overwrite)
    } else {
        Err(CopyError::DestinationExists)
    }
}

/// Decides how the destination is opened, from whether it exists and the
/// force and resume flags. An existing destination without either flag is
/// refused, so that nothing is overwritten silently.
pub fn plan_destination(dst_exists: bool, force: bool, resume: bool) -> (r: Result<
    DestinationPlan,
    CopyError,
>)
    ensures
        r == spec_plan(dst_exists, force, resume),
{
    if !dst_exists {
        Ok(DestinationPlan::CreateNew)
    } else if resume {
        Ok(DestinationPlan::Continue)
    } else if force {
        Ok(DestinationPlan::Overwrite)
    } else {
        Err(CopyError::DestinationExists)
    }
}

/// What follows one chunk of a file transfer.
#[derive(Clone, Copy, Debug, PartialEq, Eq, Structural)]
pub enum ChunkStep {
    /// The transfer loop ends; `finish` decides the outcome.
    Stop,
    /// The chunk was counted; report progress first when `report` holds.
    Next { report: bool },
}

/// Byte accounting of one file copy.
///
/// The caller asks `next_request()` for the size of the next chunk, moves at
/// most that many bytes, hands the count to `on_chunk`, and when the loop
/// ends calls `finish`, which accepts the copy only when exactly the source
/// size was reached.
#[derive(Clone, Copy, Debug, PartialEq, Eq, Structural)]
pub struct FileTransfer {
    /// Size of the source file.
    pub size: u64,
    /// Bytes of the destination so far, a resumed prefix included.
    pub done: u64,
    /// Length of the resumed prefix: 0 unless the copy continues a destination.
    pub start: u64,
    /// Largest chunk asked for at once.
    pub block_size: u64,
}

pub open spec fn spec_request(t: FileTransfer) -> Option<u64> {
    if t.done >= t.size {
        None
    } else {
        Some(min_spec(t.block_size, (t.size - t.done) as u64))
    }
}

/// The transfer state at the start of a copy, as `FileTransfer::begin`
/// sets it up.
pub open spec fn spec_begin(plan: DestinationPlan, size: u64, dst_len: u64, block_size: u64) -> FileTransfer {
    let start: u64 = if plan == DestinationPlan::Continue { dst_len } else { 0 };
    FileTransfer { size, done: start, start, block_size }
}

/// The transfer state after a chunk of `n` bytes: an empty chunk changes
/// nothing.
pub open spec fn spec_step(t: FileTransfer, n: u64) -> FileTransfer {
    if n == 0 {
        t
    } else {
        FileTransfer { done: (t.done + n) as u64, ..t }
    }
}

pub open spec fn spec_finish(t: FileTransfer) -> Result<u64, CopyError> {
    if t.done == t.size {
        Ok(t.done)
    } else {
        Err(CopyError::Incomplete { expected: t.size, transferred: t.done })
    }
}

impl FileTransfer {
    pub open spec fn wf(self) -> bool {
        self.start <= self.done
    }

    /// Bytes moved by this run of the copy, the resumed prefix left out.
    pub open spec fn moved(self) -> int {
        self.done - self.start
    }

    /// Starts the copy of a source of `size` bytes. When the plan continues
    /// a destination of `dst_len` bytes, that prefix counts as transferred,
    /// here and in `stats`; otherwise the count starts at zero.
    pub fn begin(
        plan: DestinationPlan,
        size: u64,
        dst_len: u64,
        block_size: u64,
        stats: &mut TransferStats,
    ) -> (r: FileTransfer)
        ensures
            r.wf(),
            r == spec_begin(plan, size, dst_len, block_size),
            *final(stats) == (TransferStats {
                transferred: old(stats).transferred.saturating_add(r.start),
                ..*old(stats)
            }),
    {
        let start: u64 = match plan {
            DestinationPlan::Continue => dst_len,
            _ => 0,
        };
        stats.transferred = stats.transferred.saturating_add(start);
        FileTransfer { size, done: start, start, block_size }
    }

    /// The size of the next chunk to ask for: `None` once the source size is
    /// reached, else the block size bounded by what is left.
    pub fn next_request(&self) -> (r: Option<u64>)
        ensures
            r == spec_request(*self),
    {
        if self.done >= self.size {
            None
        } else {
            Some(min(self.block_size, self.size - self.done))
        }
    }

    /// Counts a chunk of `n` bytes, as asked for by `next_request`. An empty
    /// chunk (end of the source) stops the loop; any other is added to this
    /// file's count and to `stats`, and asks for a progress report when
    /// `show_progress` is set.
    pub fn on_chunk(&mut self, n: u64, show_progress: bool, stats: &mut TransferStats) -> (r:
        ChunkStep)
        requires
            old(self).wf(),
            spec_request(*old(self)) matches Some(m) && n <= m,
        ensures
            final(self).wf(),
            *final(self) == spec_step(*old(self), n),
            final(self).done <= final(self).size,
            r == (if n == 0 {
                ChunkStep::Stop
            } else {
                ChunkStep::Next { report: show_progress }
            }),
            *final(stats) == (TransferStats {
                transferred: old(stats).transferred.saturating_add(n),
                ..*old(stats)
            }),
    {
        if n == 0 {
            return ChunkStep::Stop;
        }
        self.done = self.done + n;
        stats.transferred = stats.transferred.saturating_add(n);
        ChunkStep::Next { report: show_progress }
    }

    /// The outcome once the loop has ended: the byte count when it equals
    /// the source size, else the shortfall as an error.
    pub fn finish(&self) -> (r: Result<u64, CopyError>)
        ensures
            r == spec_finish(*self),
    {
        if self.done == self.size {
            Ok(self.done)
        } else {
            Err(CopyError::Incomplete { expected: self.size, transferred: self.done })
        }
    }
}

} // verus!
