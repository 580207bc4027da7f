use vstd::prelude::*;

verus! {

/// Block size used when none is configured: 8 MiB.
pub const DEFAULT_BLOCK_SIZE: u64 = 8388608;

/// Byte counters of one copy operation.
#[derive(Clone, Copy, Debug, PartialEq, Eq)]
pub struct TransferStats {
    /// Bytes written to destinations so far, resumed prefixes included.
    pub transferred: u64,
    /// Bytes that the whole operation is expected to transfer.
    pub total: u64,
    /// Duration of the transfer, in microseconds.
    pub time_taken_micros: u64,
}

impl TransferStats {
    /// Counters of an operation that has not started.
    pub fn new() -> (r: TransferStats)
        ensures
            r.transferred == 0,
            r.total == 0,
            r.time_taken_micros == 0,
    {
        TransferStats { transferred: 0, total: 0, time_taken_micros: 0 }
    }

    /// Counters of a single-file copy: its total is the file's size.
    pub fn single_file(size: u64) -> (r: TransferStats)
        ensures
            r.transferred == 0,
            r.total == size,
            r.time_taken_micros == 0,
    {
        TransferStats { transferred: 0, total: size, time_taken_micros: 0 }
    }
}

/// Configuration of a copy. `H` is the type of the progress handler that
/// the caller invokes when the engine asks for a progress report.
#[derive(Clone, Debug)]
pub struct CopyOptions<H> {
    pub block_size: u64,
    pub force: bool,
    pub show_progress: bool,
    pub recursive: bool,
    pub show_stats: bool,
    pub remove: bool,
    pub no_dir_err: bool,
    pub verbose: bool,
    pub resume: bool,
    pub progress_handler: Option<H>,
}

impl<H> CopyOptions<H> {
    /// Default configuration: 8 MiB blocks, every flag off, no handler
    /// (the caller's default handler is used).
    pub fn new() -> (r: Self)
        ensures
            r.block_size == DEFAULT_BLOCK_SIZE,
            !r.force,
            !r.show_progress,
            !r.recursive,
            !r.show_stats,
            !r.remove,
            !r.no_dir_err,
            !r.verbose,
            !r.resume,
            r.progress_handler is None,
    {
        CopyOptions {
            block_size: DEFAULT_BLOCK_SIZE,
            force: false,
            show_progress: false,
            recursive: false,
            show_stats: false,
            remove: false,
            no_dir_err: false,
            verbose: false,
            resume: false,
            progress_handler: None,
        }
    }

    /// Sets the number of bytes asked for in each chunk of a file transfer.
    pub fn block_size(&mut self, blk_size: u64) -> (r: &mut Self)
        ensures
            *r == (CopyOptions { block_size: blk_size, ..*old(self) }),
            *final(self) == *final(r),
    {
        self.block_size = blk_size;
        self
    }

    /// Sets whether an existing destination file may be overwritten.
    pub fn force(&mut self, is_forced: bool) -> (r: &mut Self)
        ensures
            *r == (CopyOptions { force: is_forced, ..*old(self) }),
            *final(self) == *final(r),
    {
        self.force = is_forced;
        self
    }

    /// Sets whether progress is reported after each chunk.
    pub fn progress(&mut self, show_progress: bool) -> (r: &mut Self)
        ensures
            *r == (CopyOptions { show_progress: show_progress, ..*old(self) }),
            *final(self) == *final(r),
    {
        self.show_progress = show_progress;
        self
    }

    /// Sets whether a directory source is copied with its whole tree.
    pub fn recursive(&mut self, is_recursive: bool) -> (r: &mut Self)
        ensures
            *r == (CopyOptions { recursive: is_recursive, ..*old(self) }),
            *final(self) == *final(r),
    {
        self.recursive = is_recursive;
        self
    }

    /// Sets move semantics: the source is removed after a successful copy.
    pub fn remove(&mut self, remove_file: bool) -> (r: &mut Self)
        ensures
            *r == (CopyOptions { remove: remove_file, ..*old(self) }),
            *final(self) == *final(r),
    {
        self.remove = remove_file;
        self
    }

    /// Sets whether transfer statistics are reported at the end.
    pub fn stats(&mut self, show_stats: bool) -> (r: &mut Self)
        ensures
            *r == (CopyOptions { show_stats: show_stats, ..*old(self) }),
            *final(self) == *final(r),
    {
        self.show_stats = show_stats;
        self
    }

    /// Sets whether per-file failures in a directory copy are skipped.
    pub fn dircopy_err(&mut self, ignore: bool) -> (r: &mut Self)
        ensures
            *r == (CopyOptions { no_dir_err: ignore, ..*old(self) }),
            *final(self) == *final(r),
    {
        self.no_dir_err = ignore;
        self
    }

    /// Sets verbose output.
    pub fn verbose(&mut self, is_verbose: bool) -> (r: &mut Self)
        ensures
            *r == (CopyOptions { verbose: is_verbose, ..*old(self) }),
            *final(self) == *final(r),
    {
        self.verbose = is_verbose;
        self
    }

    /// Sets whether an existing destination is continued from its length.
    pub fn resume(&mut self, is_resume: bool) -> (r: &mut Self)
        ensures
            *r == (CopyOptions { resume: is_resume, ..*old(self) }),
            *final(self) == *final(r),
    {
        self.resume = is_resume;
        self
    }

    /// Sets the handler that the caller invokes for progress reports.
    pub fn progress_handler(&mut self, handler: H) -> (r: &mut Self)
        ensures
            *r == (CopyOptions { progress_handler: Some(handler), ..*old(self) }),
            *final(self) == *final(r),
    {
        self.progress_handler = Some(handler);
        self
    }
}

} // verus!
