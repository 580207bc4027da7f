use vstd::prelude::*;
use crate::paths::{join_path, spec_join};

verus! {

/// A regular file found under a directory: its path relative to the root
/// of the walk, and its size in bytes.
#[derive(Clone, Debug)]
pub struct DirFile {
    pub path: String,
    pub size: u64,
}

impl DirFile {
    pub open spec fn view(&self) -> (Seq<char>, u64) {
        (self.path@, self.size)
    }

    /// Size of the file in bytes.
    pub fn size(&self) -> (r: u64)
        ensures
            r == self.size,
    {
        self.size
    }

    /// Path of the file relative to the root of the walk.
    pub fn path(&self) -> (r: &String)
        ensures
            r == &self.path,
    {
        &self.path
    }
}

/// One entry of a directory listing, as the filesystem reports it.
#[derive(Clone, Debug)]
pub struct ListedEntry {
    pub name: String,
    pub is_dir: bool,
    pub size: u64,
}

pub open spec fn file_views(files: Seq<DirFile>) -> Seq<(Seq<char>, u64)> {
    files.map_values(|f: DirFile| f.view())
}

/// The files that a listing of directory `dir` contributes, in listing order.
pub open spec fn listed_files(dir: Seq<char>, entries: Seq<ListedEntry>) -> Seq<(Seq<char>, u64)>
    decreases entries.len(),
{
    if entries.len() == 0 {
        Seq::empty()
    } else {
        let e = entries.last();
        let rest = listed_files(dir, entries.drop_last());
        if e.is_dir {
            rest
        } else {
            rest.push((spec_join(dir, e.name@), e.size))
        }
    }
}

/// The subdirectories that a listing of directory `dir` contributes to the
/// stack of directories still to be listed: last listed at the bottom, so
/// that they are taken in listing order.
pub open spec fn stacked_dirs(dir: Seq<char>, entries: Seq<ListedEntry>) -> Seq<Seq<char>>
    decreases entries.len(),
{
    if entries.len() == 0 {
        Seq::empty()
    } else {
        let e = entries[0];
        let rest = stacked_dirs(dir, entries.drop_first());
        if e.is_dir {
            rest.push(spec_join(dir, e.name@))
        } else {
            rest
        }
    }
}

/// A recursive walk of a directory tree that collects every regular file
/// with its path relative to the root; directories are not collected.
///
/// Directories are taken depth first, the subdirectories of each listing
/// in listing order. The caller takes a directory from `next_dir`, lists it
/// under the root,
/// and hands the listing to `on_listing`, until `next_dir` gives nothing. A
/// listing or metadata failure ends the whole walk with that failure and no
/// partial result.
pub struct DirWalk {
    /// Relative paths of directories still to be listed.
    pub pending: Vec<String>,
    /// Files found so far.
    pub files: Vec<DirFile>,
}

impl DirWalk {
    pub open spec fn pending_view(&self) -> Seq<Seq<char>> {
        self.pending@.map_values(|p: String| p@)
    }

    /// A walk that has found nothing and will list the root first.
    pub fn new() -> (r: DirWalk)
        ensures
            r.pending_view() == seq![Seq::<char>::empty()],
            r.files@.len() == 0,
    {
        let mut pending: Vec<String> = Vec::new();
        pending.push(String::new());
        proof {
            assert(pending@.map_values(|p: String| p@) =~= seq![Seq::<char>::empty()]);
        }
        DirWalk { pending, files: Vec::new() }
    }

    /// The next directory to list, relative to the root, or `None` when the
    /// walk is complete.
    pub fn next_dir(&mut self) -> (r: Option<String>)
        ensures
            final(self).files == old(self).files,
            old(self).pending@.len() == 0 ==> r is None && final(self).pending@.len() == 0,
            old(self).pending@.len() > 0 ==> r == Some(old(self).pending@.last())
                && final(self).pending@ == old(self).pending@.drop_last(),
    {
        self.pending.pop()
    }

    /// Takes in the listing of directory `dir`: its regular files join the
    /// result in listing order, its subdirectories are listed next, in
    /// listing order.
    pub fn on_listing(&mut self, dir: &str, entries: &Vec<ListedEntry>)
        ensures
            file_views(final(self).files@) == file_views(old(self).files@) + listed_files(
                dir@,
                entries@,
            ),
            final(self).pending_view() == old(self).pending_view() + stacked_dirs(
                dir@,
                entries@,
            ),
    {
        let n = entries.len();
        let mut i: usize = 0;
        while i < n
            invariant
                n == entries@.len(),
                0 <= i <= n,
                file_views(self.files@) == file_views(old(self).files@) + listed_files(
                    dir@,
                    entries@.take(i as int),
                ),
                self.pending == old(self).pending,
            decreases n - i,
        {
            let e = &entries[i];
            proof {
                assert(entries@.take(i + 1).drop_last() =~= entries@.take(i as int));
                assert(entries@.take(i + 1).last() == entries@[i as int]);
            }
            if !e.is_dir {
                let path = join_path(dir, e.name.as_str());
                let ghost before = self.files@;
                self.files.push(DirFile { path, size: e.size });
                proof {
                    assert(file_views(self.files@) =~= file_views(before).push(
                        (spec_join(dir@, e.name@), e.size),
                    ));
                }
            }
            i = i + 1;
        }
        proof {
            assert(entries@.take(n as int) =~= entries@);
            assert(entries@.skip(n as int) =~= Seq::<ListedEntry>::empty());
        }
        let mut j: usize = n;
        while j > 0
            invariant
                n == entries@.len(),
                0 <= j <= n,
                file_views(self.files@) == file_views(old(self).files@) + listed_files(
                    dir@,
                    entries@,
                ),
                self.pending_view() == old(self).pending_view() + stacked_dirs(
                    dir@,
                    entries@.skip(j as int),
                ),
            decreases j,
        {
            let e = &entries[j - 1];
            proof {
                assert(entries@.skip(j - 1).drop_first() =~= entries@.skip(j as int));
                assert(entries@.skip(j - 1)[0] == entries@[j - 1]);
            }
            if e.is_dir {
                let path = join_path(dir, e.name.as_str());
                let ghost before = self.pending@;
                self.pending.push(path);
                proof {
                    assert(self.pending@.map_values(|p: String| p@) =~= before.map_values(
                        |p: String| p@,
                    ).push(spec_join(dir@, e.name@)));
                }
            }
            j = j - 1;
        }
        proof {
            assert(entries@.skip(0) =~= entries@);
        }
    }

    /// The files found by the walk.
    pub fn into_files(self) -> (r: Vec<DirFile>)
        ensures
            r@ == self.files@,
    {
        self.files
    }
}

} // verus!
