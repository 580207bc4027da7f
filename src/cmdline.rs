use vstd::prelude::*;
use crate::options::CopyOptions;

verus! {

/// The settings that the command line gives.
#[derive(Clone, Debug)]
pub struct CmdlineCfg {
    pub src_path: String,
    pub dst_path: String,
    pub block_size: u64,
    pub progress: bool,
    pub statistics: bool,
    pub recursive: bool,
    pub force: bool,
    pub no_dir_err: bool,
    pub verbose: bool,
    pub remove: bool,
    pub resume: bool,
}

impl CmdlineCfg {
    /// Empty paths, a zero block size and every flag off.
    pub fn new() -> (r: Self)
        ensures
            r.src_path@.len() == 0,
            r.dst_path@.len() == 0,
            r.block_size == 0,
            !r.progress,
            !r.statistics,
            !r.recursive,
            !r.force,
            !r.no_dir_err,
            !r.verbose,
            !r.remove,
            !r.resume,
    {
        CmdlineCfg {
            src_path: String::new(),
            dst_path: String::new(),
            block_size: 0,
            progress: false,
            statistics: false,
            recursive: false,
            force: false,
            no_dir_err: false,
            verbose: false,
            remove: false,
            resume: false,
        }
    }
}

/// The copy options that the command-line settings select; no progress
/// handler is set, so the default one is used.
pub fn cmdline_cfg_to_copy_opts<H>(cmdline_cfg: &CmdlineCfg) -> (r: CopyOptions<H>)
    ensures
        r.block_size == cmdline_cfg.block_size,
        r.force == cmdline_cfg.force,
        r.show_progress == cmdline_cfg.progress,
        r.recursive == cmdline_cfg.recursive,
        r.show_stats == cmdline_cfg.statistics,
        r.remove == cmdline_cfg.remove,
        r.no_dir_err == cmdline_cfg.no_dir_err,
        r.verbose == cmdline_cfg.verbose,
        r.resume == cmdline_cfg.resume,
        r.progress_handler is None,
{
    let mut copy_opts = CopyOptions::new();
    copy_opts.block_size(cmdline_cfg.block_size).force(cmdline_cfg.force).recursive(
        cmdline_cfg.recursive,
    ).progress(cmdline_cfg.progress).remove(cmdline_cfg.remove).stats(
        cmdline_cfg.statistics,
    ).dircopy_err(cmdline_cfg.no_dir_err).verbose(cmdline_cfg.verbose).resume(
        cmdline_cfg.resume,
    );
    copy_opts
}

} // verus!
