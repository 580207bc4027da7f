//! A file and directory copy engine with resumable transfers, byte accounting
//! and progress reporting.
//!
//! The engine is written as a set of small decision procedures: the caller
//! performs the filesystem work (opening, reading, writing, listing, removing)
//! and hands each outcome back to the engine, which says what happens next.

mod chunk;
mod cmdline;
mod dircopy;
mod error;
mod filecopy;
mod finish;
mod laws;
mod options;
mod paths;
mod size;
mod walker;

pub use chunk::{min, ChunkTransfer, BUFFER_SIZE};
pub use error::{CopyError, ErrorClass};
pub use filecopy::{plan_destination, ChunkStep, DestinationPlan, FileTransfer};
pub use options::{CopyOptions, TransferStats, DEFAULT_BLOCK_SIZE};
pub use paths::{check_distinct, join_path, resolve_target, PathKind};
pub use size::{parse_size_from_str, FALLBACK_SIZE, GB, KB, MB};
pub use walker::{DirFile, DirWalk, ListedEntry};
pub use dircopy::{single_file_verdict, DirectoryCopy, FileVerdict};
pub use finish::{finish_copy, throughput};
pub use cmdline::{cmdline_cfg_to_copy_opts, CmdlineCfg};
pub use laws::{lemma_directory_needs_recursion, lemma_file_adds_its_size, lemma_forced_copy_repeats, lemma_move_removes_sources, lemma_plain_copy_moves_whole_file, lemma_resume_moves_rest, lemma_run_counts_chunks, lemma_tree_total};
