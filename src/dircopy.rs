use vstd::prelude::*;
use crate::options::TransferStats;
use crate::paths::{join_path, spec_join};
use crate::walker::DirFile;

verus! {

/// Sum of the sizes of a list of files.
pub open spec fn total_size(files: Seq<DirFile>) -> nat
    decreases files.len(),
{
    if files.len() == 0 {
        0
    } else {
        (total_size(files.drop_last()) + files.last().size) as nat
    }
}

/// A byte count held in 64 bits, saturating at the largest value.
pub open spec fn saturate(n: int) -> u64 {
    if n > u64::MAX {
        u64::MAX
    } else {
        n as u64
    }
}

/// What follows the copy of one file of a directory.
#[derive(Clone, Copy, Debug, PartialEq, Eq, Structural)]
pub enum FileVerdict {
    /// The file failed: the directory copy ends with that failure.
    Abort,
    /// The file failed and failures are ignored: log it, go on.
    Skip,
    /// The file was copied under move semantics: remove its source, then
    /// report with `on_removed`.
    RemoveSource,
    /// The file was copied: go on.
    Continue,
}

/// The error policy of a directory copy for the outcome of one file.
pub open spec fn spec_verdict(copied: bool, remove: bool, no_dir_err: bool) -> FileVerdict {
    if !copied {
        if no_dir_err {
            FileVerdict::Skip
        } else {
            FileVerdict::Abort
        }
    } else if remove {
        FileVerdict::RemoveSource
    } else {
        FileVerdict::Continue
    }
}

/// What follows the copy of a single file: a failure ends the operation
/// (`Abort`); under move semantics the source is removed next
/// (`RemoveSource`), and a failed removal ends the operation too.
pub fn single_file_verdict(copied: bool, remove: bool) -> (r: FileVerdict)
    ensures
        r == spec_verdict(copied, remove, false),
{
    if !copied {
        FileVerdict::Abort
    } else if remove {
        FileVerdict::RemoveSource
    } else {
        FileVerdict::Continue
    }
}

/// A directory copy: the files of a walk copied one by one from the
/// source root to the destination root.
///
/// The caller copies the file pair from `next_paths`, reports the outcome
/// with `on_copied` (and, for a move, the removal with `on_removed`) until
/// `next_paths` gives nothing; then it removes the source tree when
/// `removes_tree` holds.
pub struct DirectoryCopy {
    pub src_root: String,
    pub dst_root: String,
    pub files: Vec<DirFile>,
    /// Index of the next file to copy.
    pub next: usize,
    pub remove: bool,
    pub no_dir_err: bool,
}

impl DirectoryCopy {
    pub open spec fn wf(&self) -> bool {
        self.next <= self.files@.len() <= usize::MAX
    }

    /// Starts a directory copy over `files`. The sizes of all of them are
    /// added to the total of `stats` before any file is copied.
    pub fn new(
        src_root: &str,
        dst_root: &str,
        files: Vec<DirFile>,
        remove: bool,
        no_dir_err: bool,
        stats: &mut TransferStats,
    ) -> (r: DirectoryCopy)
        ensures
            r.wf(),
            r.src_root@ == src_root@,
            r.dst_root@ == dst_root@,
            r.files@ == files@,
            r.next == 0,
            r.remove == remove,
            r.no_dir_err == no_dir_err,
            *final(stats) == (TransferStats {
                total: saturate(old(stats).total + total_size(files@)),
                ..*old(stats)
            }),
    {
        let n = files.len();
        let mut i: usize = 0;
        let mut total: u64 = stats.total;
        while i < n
            invariant
                n == files@.len(),
                0 <= i <= n,
                total == saturate(old(stats).total + total_size(files@.take(i as int))),
            decreases n - i,
        {
            proof {
                assert(files@.take(i + 1).drop_last() =~= files@.take(i as int));
                assert(files@.take(i + 1).last() == files@[i as int]);
                assert(total_size(files@.take(i + 1)) == total_size(files@.take(i as int))
                    + files@[i as int].size);
            }
            total = total.saturating_add(files[i].size());
            i = i + 1;
        }
        proof {
            assert(files@.take(n as int) =~= files@);
        }
        stats.total = total;
        DirectoryCopy {
            src_root: String::from_str(src_root),
            dst_root: String::from_str(dst_root),
            files,
            next: 0,
            remove,
            no_dir_err,
        }
    }

    /// Source and destination paths of the next file, or `None` when every
    /// file has been dealt with.
    pub fn next_paths(&self) -> (r: Option<(String, String)>)
        requires
            self.wf(),
        ensures
            self.next == self.files@.len() ==> r is None,
            self.next < self.files@.len() ==> (r matches Some(p) && p.0@ == spec_join(
                self.src_root@,
                self.files@[self.next as int].path@,
            ) && p.1@ == spec_join(self.dst_root@, self.files@[self.next as int].path@)),
    {
        if self.next == self.files.len() {
            return None;
        }
        let rel = self.files[self.next].path();
        let s = join_path(self.src_root.as_str(), rel.as_str());
        let d = join_path(self.dst_root.as_str(), rel.as_str());
        Some((s, d))
    }

    /// Applies the error policy to the outcome of copying the next file.
    pub fn on_copied(&mut self, copied: bool) -> (r: FileVerdict)
        requires
            old(self).wf(),
            old(self).next < old(self).files@.len(),
        ensures
            final(self).wf(),
            r == spec_verdict(copied, old(self).remove, old(self).no_dir_err),
            r == FileVerdict::Skip || r == FileVerdict::Continue ==> *final(self) == (
            DirectoryCopy { next: (old(self).next + 1) as usize, ..*old(self) }),
            r == FileVerdict::Abort || r == FileVerdict::RemoveSource ==> *final(self)
                == *old(self),
    {
        if !copied {
            if self.no_dir_err {
                self.next = self.next + 1;
                FileVerdict::Skip
            } else {
                FileVerdict::Abort
            }
        } else if self.remove {
            FileVerdict::RemoveSource
        } else {
            self.next = self.next + 1;
            FileVerdict::Continue
        }
    }

    /// Applies the error policy to the removal of a moved file's source:
    /// a failed removal ends the directory copy unless failures are ignored.
    /// The result says whether the copy goes on.
    pub fn on_removed(&mut self, removed: bool) -> (r: bool)
        requires
            old(self).wf(),
            old(self).next < old(self).files@.len(),
        ensures
            final(self).wf(),
            r == (removed || old(self).no_dir_err),
            r ==> *final(self) == (DirectoryCopy {
                next: (old(self).next + 1) as usize,
                ..*old(self)
            }),
            !r ==> *final(self) == *old(self),
    {
        if removed || self.no_dir_err {
            self.next = self.next + 1;
            true
        } else {
            false
        }
    }

    /// Whether the emptied source tree is to be removed once every file has
    /// been dealt with: so under move semantics.
    pub fn removes_tree(&self) -> (r: bool)
        ensures
            r == self.remove,
    {
        self.remove
    }
}

} // verus!
