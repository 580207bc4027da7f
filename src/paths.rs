use vstd::prelude::*;
use vstd::string::StringExecFns;
use crate::error::CopyError;

verus! {

/// The final component of a path, as the platform's path rules give it.
pub uninterp spec fn file_name_of(p: Seq<char>) -> Option<Seq<char>>;

/// Relies on std::path::Path::file_name: the last component of the path,
/// or none when the path ends in `..` or is a root. The component of a
/// string path is itself valid text.
#[verifier::external_body]
fn file_name(p: &str) -> (r: Option<String>)
    ensures
        r matches Some(n) ==> file_name_of(p@) == Some(n@),
        r is None ==> file_name_of(p@) is None,
{
    std::path::Path::new(p).file_name().and_then(|n| n.to_str()).map(String::from)
}

/// `rel` appended to `base`, with a separator unless `base` is empty or
/// already ends in one.
pub open spec fn spec_join(base: Seq<char>, rel: Seq<char>) -> Seq<char> {
    if base.len() == 0 || base.last() == '/' {
        base + rel
    } else {
        base + seq!['/'] + rel
    }
}

/// Joins a relative path onto a base path.
pub fn join_path(base: &str, rel: &str) -> (r: String)
    ensures
        r@ == spec_join(base@, rel@),
{
    let n = base.unicode_len();
    let mut out = String::from_str(base);
    if n > 0 && base.get_char(n - 1) != '/' {
        proof {
            reveal_strlit("/");
        }
        out.append("/");
    }
    out.append(rel);
    out
}

/// Refuses a copy whose source and destination are the same path string;
/// this is decided before the filesystem is consulted.
pub fn check_distinct(src: &str, dst: &str) -> (r: Result<(), CopyError>)
    ensures
        r == (if src@ == dst@ { Err(CopyError::SamePath) } else { Ok(()) }),
{
    let a = String::from_str(src);
    let b = String::from_str(dst);
    if a == b {
        Err(CopyError::SamePath)
    } else {
        Ok(())
    }
}

/// What a path is found to be on the filesystem.
#[derive(Clone, Copy, Debug, PartialEq, Eq, Structural)]
pub enum PathKind {
    Missing,
    File,
    Directory,
}

pub open spec fn spec_target(
    src: Seq<char>,
    dst: Seq<char>,
    src_is_dir: bool,
    recursive: bool,
    dst_kind: PathKind,
) -> Result<Seq<char>, CopyError> {
    if src_is_dir && !recursive {
        Err(CopyError::DirectoryWithoutRecursion)
    } else if dst_kind == PathKind::Directory {
        match file_name_of(src) {
            Some(name) => Ok(spec_join(dst, name)),
            None => Ok(dst),
        }
    } else if dst_kind == PathKind::File && src_is_dir {
        Err(CopyError::DirectoryOntoFile)
    } else {
        Ok(dst)
    }
}

/// The effective destination of a copy. A directory source needs the
/// recursive flag and cannot go onto an existing file; a destination that
/// is an existing directory receives the source under its own name.
pub fn resolve_target(
    src: &str,
    dst: &str,
    src_is_dir: bool,
    recursive: bool,
    dst_kind: PathKind,
) -> (r: Result<String, CopyError>)
    ensures
        r matches Ok(t) ==> spec_target(src@, dst@, src_is_dir, recursive, dst_kind) == Ok::<
            Seq<char>,
            CopyError,
        >(t@),
        r matches Err(e) ==> spec_target(src@, dst@, src_is_dir, recursive, dst_kind) == Err::<
            Seq<char>,
            CopyError,
        >(e),
{
    if src_is_dir && !recursive {
        return Err(CopyError::DirectoryWithoutRecursion);
    }
    match dst_kind {
        PathKind::Directory => match file_name(src) {
            Some(name) => Ok(join_path(dst, name.as_str())),
            None => Ok(String::from_str(dst)),
        },
        PathKind::File => {
            if src_is_dir {
                Err(CopyError::DirectoryOntoFile)
            } else {
                Ok(String::from_str(dst))
            }
        },
        PathKind::Missing => Ok(String::from_str(dst)),
    }
}

} // verus!
