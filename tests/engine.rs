use filecopy::{
    check_distinct, cmdline_cfg_to_copy_opts, finish_copy, join_path, min, parse_size_from_str,
    plan_destination, resolve_target, throughput, ChunkStep, ChunkTransfer, CmdlineCfg,
    CopyError, CopyOptions, DestinationPlan, DirFile, DirWalk, DirectoryCopy, ErrorClass,
    FileTransfer, FileVerdict, ListedEntry, PathKind, TransferStats, single_file_verdict, BUFFER_SIZE, GB, KB, MB,
};

/// Moves up to `requested` bytes of `src` from `pos` onto `dst`, the way a
/// chunked transfer does it over real files.
fn chunk_mem(src: &[u8], pos: &mut usize, dst: &mut Vec<u8>, requested: u64) -> u64 {
    let mut c = ChunkTransfer::new(requested);
    loop {
        let len = c.next_read_len() as usize;
        assert!(len as u64 <= BUFFER_SIZE);
        let avail = std::cmp::min(len, src.len().saturating_sub(*pos));
        if !c.on_read(Some(avail as u64)) {
            break;
        }
        dst.extend_from_slice(&src[*pos..*pos + avail]);
        *pos += avail;
    }
    c.transferred()
}

/// A single-file copy between byte buffers, driven by the engine. Returns
/// the result and the number of bytes moved in this run.
fn copy_mem(
    src: &[u8],
    dst: &mut Option<Vec<u8>>,
    force: bool,
    resume: bool,
    block: u64,
    stats: &mut TransferStats,
) -> (Result<u64, CopyError>, u64) {
    let plan = match plan_destination(dst.is_some(), force, resume) {
        Ok(p) => p,
        Err(e) => return (Err(e), 0),
    };
    let mut out = match (plan, dst.take()) {
        (DestinationPlan::Continue, Some(d)) => d,
        _ => Vec::new(),
    };
    let mut t = FileTransfer::begin(plan, src.len() as u64, out.len() as u64, block, stats);
    let mut pos = t.done as usize;
    let mut moved: u64 = 0;
    while let Some(req) = t.next_request() {
        let n = chunk_mem(src, &mut pos, &mut out, req);
        moved += n;
        if t.on_chunk(n, false, stats) == ChunkStep::Stop {
            break;
        }
    }
    *dst = Some(out);
    (t.finish(), moved)
}

fn sample(n: usize) -> Vec<u8> {
    (0..n).map(|i| (i * 7 % 251) as u8).collect()
}

#[test]
fn options_defaults() {
    let o: CopyOptions<u8> = CopyOptions::new();
    assert_eq!(o.block_size, 8 * 1024 * 1024);
    assert!(!o.force && !o.show_progress && !o.recursive && !o.show_stats);
    assert!(!o.remove && !o.no_dir_err && !o.verbose && !o.resume);
    assert!(o.progress_handler.is_none());
}

#[test]
fn options_builders_chain() {
    let mut o: CopyOptions<u8> = CopyOptions::new();
    o.block_size(4096)
        .force(true)
        .progress(true)
        .recursive(true)
        .remove(true)
        .stats(true)
        .dircopy_err(true)
        .verbose(true)
        .resume(true)
        .progress_handler(7);
    assert_eq!(o.block_size, 4096);
    assert!(o.force && o.show_progress && o.recursive && o.remove);
    assert!(o.show_stats && o.no_dir_err && o.verbose && o.resume);
    assert_eq!(o.progress_handler, Some(7));
}

#[test]
fn cmdline_settings_become_options() {
    let mut cfg = CmdlineCfg::new();
    assert_eq!(cfg.block_size, 0);
    assert!(cfg.src_path.is_empty() && cfg.dst_path.is_empty());
    cfg.block_size = 1024;
    cfg.recursive = true;
    cfg.statistics = true;
    cfg.remove = true;
    let o: CopyOptions<u8> = cmdline_cfg_to_copy_opts(&cfg);
    assert_eq!(o.block_size, 1024);
    assert!(o.recursive && o.show_stats && o.remove);
    assert!(!o.force && !o.resume && !o.show_progress && !o.no_dir_err && !o.verbose);
}

#[test]
fn size_strings_with_suffixes() {
    assert_eq!(parse_size_from_str("32M"), 32 * MB);
    assert_eq!(parse_size_from_str("8m"), 8 * MB);
    assert_eq!(parse_size_from_str("4k"), 4 * KB);
    assert_eq!(parse_size_from_str("16K"), 16 * KB);
    assert_eq!(parse_size_from_str("2G"), 2 * GB);
    assert_eq!(parse_size_from_str("1g"), GB);
    assert_eq!(parse_size_from_str("0K"), 0);
}

#[test]
fn size_strings_that_fall_back() {
    assert_eq!(parse_size_from_str(""), 8 * MB);
    assert_eq!(parse_size_from_str("12"), 8 * MB);
    assert_eq!(parse_size_from_str("5x"), 8 * MB);
    assert_eq!(parse_size_from_str("5MB"), 8 * MB);
    assert_eq!(parse_size_from_str("M"), 8 * MB);
    assert_eq!(parse_size_from_str("k"), 8 * MB);
    assert_eq!(parse_size_from_str("K"), 8 * MB);
    assert_eq!(parse_size_from_str("99999999999999999999K"), 8 * MB);
    assert_eq!(parse_size_from_str("17179869184G"), 8 * MB);
}

#[test]
fn min_picks_smaller() {
    assert_eq!(min(3, 9), 3);
    assert_eq!(min(9, 3), 3);
    assert_eq!(min(5, 5), 5);
}

#[test]
fn chunk_reads_are_bounded_by_buffer() {
    let src = sample(100_000);
    let mut pos = 0;
    let mut dst = Vec::new();
    let n = chunk_mem(&src, &mut pos, &mut dst, 70_000);
    assert_eq!(n, 70_000);
    assert_eq!(dst, src[..70_000].to_vec());
    let mut c = ChunkTransfer::new(70_000);
    assert_eq!(c.next_read_len(), 32_768);
    assert!(c.on_read(Some(32_768)));
    assert!(c.on_read(Some(32_768)));
    assert_eq!(c.next_read_len(), 4_464);
}

#[test]
fn chunk_stops_at_end_of_input() {
    let src = sample(1000);
    let mut pos = 0;
    let mut dst = Vec::new();
    assert_eq!(chunk_mem(&src, &mut pos, &mut dst, 5000), 1000);
    assert_eq!(chunk_mem(&src, &mut pos, &mut dst, 5000), 0);
}

#[test]
fn chunk_read_failure_keeps_partial_count() {
    let mut c = ChunkTransfer::new(100_000);
    assert!(c.on_read(Some(10)));
    assert!(!c.on_read(None));
    assert_eq!(c.transferred(), 10);
}

#[test]
fn plain_copy_is_byte_identical() {
    let src = sample(100);
    let mut dst = None;
    let mut stats = TransferStats::single_file(100);
    let (r, moved) = copy_mem(&src, &mut dst, false, false, 30, &mut stats);
    assert_eq!(r, Ok(100));
    assert_eq!(moved, 100);
    assert_eq!(dst.unwrap(), src);
    assert_eq!(stats.transferred, 100);
    assert_eq!(finish_copy(&mut stats, false, 5), Ok(None));
}

#[test]
fn empty_file_copy() {
    let mut dst = None;
    let mut stats = TransferStats::single_file(0);
    let (r, _) = copy_mem(&[], &mut dst, false, false, 30, &mut stats);
    assert_eq!(r, Ok(0));
    assert_eq!(dst.unwrap(), Vec::<u8>::new());
}

#[test]
fn existing_destination_is_refused() {
    assert_eq!(plan_destination(true, false, false), Err(CopyError::DestinationExists));
    assert_eq!(CopyError::DestinationExists.class(), ErrorClass::AlreadyExists);
    assert_eq!(plan_destination(false, false, false), Ok(DestinationPlan::CreateNew));
    assert_eq!(plan_destination(true, true, false), Ok(DestinationPlan::Overwrite));
    assert_eq!(plan_destination(true, true, true), Ok(DestinationPlan::Continue));
    assert_eq!(plan_destination(true, false, true), Ok(DestinationPlan::Continue));
}

#[test]
fn resume_moves_only_the_rest() {
    let src = sample(100);
    let mut dst = Some(src[..40].to_vec());
    let mut stats = TransferStats::single_file(100);
    let (r, moved) = copy_mem(&src, &mut dst, false, true, 25, &mut stats);
    assert_eq!(r, Ok(100));
    assert_eq!(moved, 60);
    assert_eq!(dst.unwrap(), src);
    assert_eq!(stats.transferred, 100);
}

#[test]
fn resume_of_complete_destination_moves_nothing() {
    let src = sample(64);
    let mut dst = Some(src.clone());
    let mut stats = TransferStats::single_file(64);
    let (r, moved) = copy_mem(&src, &mut dst, false, true, 16, &mut stats);
    assert_eq!(r, Ok(64));
    assert_eq!(moved, 0);
}

#[test]
fn resume_of_longer_destination_is_incomplete() {
    let src = sample(10);
    let mut dst = Some(sample(15));
    let mut stats = TransferStats::single_file(10);
    let (r, _) = copy_mem(&src, &mut dst, false, true, 16, &mut stats);
    assert_eq!(r, Err(CopyError::Incomplete { expected: 10, transferred: 15 }));
}

#[test]
fn forced_copy_twice_gives_same_content() {
    let src = sample(500);
    let mut dst = Some(sample(900));
    let mut stats = TransferStats::single_file(500);
    let (r1, _) = copy_mem(&src, &mut dst, true, false, 64, &mut stats);
    let first = dst.clone().unwrap();
    let mut stats2 = TransferStats::single_file(500);
    let (r2, _) = copy_mem(&src, &mut dst, true, false, 64, &mut stats2);
    assert_eq!(r1, Ok(500));
    assert_eq!(r2, Ok(500));
    assert_eq!(first, src);
    assert_eq!(dst.unwrap(), first);
}

#[test]
fn short_source_is_incomplete() {
    // the file is reported as 50 bytes but only 20 can be read
    let src = sample(20);
    let mut stats = TransferStats::single_file(50);
    let mut t = FileTransfer::begin(DestinationPlan::CreateNew, 50, 0, 8, &mut stats);
    let mut pos = 0;
    let mut out = Vec::new();
    while let Some(req) = t.next_request() {
        let n = chunk_mem(&src, &mut pos, &mut out, req);
        if t.on_chunk(n, true, &mut stats) == ChunkStep::Stop {
            break;
        }
    }
    assert_eq!(t.finish(), Err(CopyError::Incomplete { expected: 50, transferred: 20 }));
    assert_eq!(
        finish_copy(&mut stats, false, 1),
        Err(CopyError::TotalMismatch { transferred: 20, total: 50 })
    );
}

#[test]
fn chunk_asks_progress_report_when_enabled() {
    let mut stats = TransferStats::single_file(10);
    let mut t = FileTransfer::begin(DestinationPlan::CreateNew, 10, 0, 4, &mut stats);
    assert_eq!(t.next_request(), Some(4));
    assert_eq!(t.on_chunk(4, true, &mut stats), ChunkStep::Next { report: true });
    assert_eq!(t.on_chunk(4, false, &mut stats), ChunkStep::Next { report: false });
    assert_eq!(t.next_request(), Some(2));
    assert_eq!(t.on_chunk(0, true, &mut stats), ChunkStep::Stop);
    assert_eq!(stats.transferred, 8);
}

#[test]
fn zero_block_size_cannot_finish() {
    let mut stats = TransferStats::single_file(5);
    let t = FileTransfer::begin(DestinationPlan::CreateNew, 5, 0, 0, &mut stats);
    assert_eq!(t.next_request(), Some(0));
    assert_eq!(t.finish(), Err(CopyError::Incomplete { expected: 5, transferred: 0 }));
}

#[test]
fn same_path_is_refused() {
    assert_eq!(check_distinct("/tmp/a", "/tmp/a"), Err(CopyError::SamePath));
    assert_eq!(check_distinct("/tmp/a", "/tmp/b"), Ok(()));
    assert_eq!(check_distinct("a", "./a"), Ok(()));
    assert_eq!(CopyError::SamePath.class(), ErrorClass::Other);
}

#[test]
fn directory_without_recursion_is_invalid_input() {
    let r = resolve_target("/tmp/d", "/tmp/e", true, false, PathKind::Missing);
    assert_eq!(r, Err(CopyError::DirectoryWithoutRecursion));
    assert_eq!(CopyError::DirectoryWithoutRecursion.class(), ErrorClass::InvalidInput);
    let r = resolve_target("/tmp/d", "/tmp/e", true, false, PathKind::Directory);
    assert_eq!(r, Err(CopyError::DirectoryWithoutRecursion));
}

#[test]
fn copy_into_existing_directory() {
    let r = resolve_target("/tmp/a.txt", "/tmp/existing_dir", false, false, PathKind::Directory);
    assert_eq!(r, Ok(String::from("/tmp/existing_dir/a.txt")));
    let r = resolve_target("/tmp/a.txt", "/tmp/existing_dir/", false, false, PathKind::Directory);
    assert_eq!(r, Ok(String::from("/tmp/existing_dir/a.txt")));
    let r = resolve_target("/src/tree/", "/dst", true, true, PathKind::Directory);
    assert_eq!(r, Ok(String::from("/dst/tree")));
}

#[test]
fn target_unchanged_when_not_a_directory() {
    let r = resolve_target("/tmp/a.txt", "/tmp/b.txt", false, false, PathKind::File);
    assert_eq!(r, Ok(String::from("/tmp/b.txt")));
    let r = resolve_target("/tmp/a.txt", "/tmp/new", false, false, PathKind::Missing);
    assert_eq!(r, Ok(String::from("/tmp/new")));
    let r = resolve_target("/tmp/d", "/tmp/f", true, true, PathKind::File);
    assert_eq!(r, Err(CopyError::DirectoryOntoFile));
}

#[test]
fn joining_paths() {
    assert_eq!(join_path("a", "b"), "a/b");
    assert_eq!(join_path("a/", "b"), "a/b");
    assert_eq!(join_path("", "b"), "b");
    assert_eq!(join_path("/x/y", "c/d.txt"), "/x/y/c/d.txt");
}

#[test]
fn walk_collects_files_relative_to_root() {
    let mut w = DirWalk::new();
    let mut seen = Vec::new();
    while let Some(dir) = w.next_dir() {
        seen.push(dir.clone());
        let listing: Vec<ListedEntry> = match dir.as_str() {
            "" => vec![
                ListedEntry { name: "a.txt".into(), is_dir: false, size: 3 },
                ListedEntry { name: "sub".into(), is_dir: true, size: 0 },
            ],
            "sub" => vec![
                ListedEntry { name: "b.bin".into(), is_dir: false, size: 10 },
                ListedEntry { name: "deep".into(), is_dir: true, size: 0 },
            ],
            "sub/deep" => vec![ListedEntry { name: "c".into(), is_dir: false, size: 0 }],
            other => panic!("unexpected directory {other}"),
        };
        w.on_listing(&dir, &listing);
    }
    assert_eq!(seen, vec!["", "sub", "sub/deep"]);
    let files = w.into_files();
    let got: Vec<(String, u64)> = files.iter().map(|f| (f.path().clone(), f.size())).collect();
    assert_eq!(
        got,
        vec![("a.txt".to_string(), 3), ("sub/b.bin".to_string(), 10), ("sub/deep/c".to_string(), 0)]
    );
}

#[test]
fn walk_of_empty_directory() {
    let mut w = DirWalk::new();
    let dir = w.next_dir().unwrap();
    w.on_listing(&dir, &Vec::new());
    assert!(w.next_dir().is_none());
    assert!(w.into_files().is_empty());
}

fn ten_files() -> Vec<DirFile> {
    (0..10)
        .map(|i| DirFile { path: format!("f{i}"), size: 100_000 })
        .collect()
}

#[test]
fn directory_stats_report_total() {
    let files = ten_files();
    let mut stats = TransferStats::new();
    let mut d = DirectoryCopy::new("/s", "/d", files, false, false, &mut stats);
    assert_eq!(stats.total, 1_000_000);
    let mut copied = 0;
    while let Some((s, t)) = d.next_paths() {
        assert!(s.starts_with("/s/f") && t.starts_with("/d/f"));
        let data = sample(100_000);
        let mut dst = None;
        let (r, _) = copy_mem(&data, &mut dst, false, false, 8192, &mut stats);
        assert_eq!(r, Ok(100_000));
        assert_eq!(d.on_copied(true), FileVerdict::Continue);
        copied += 1;
    }
    assert_eq!(copied, 10);
    assert!(!d.removes_tree());
    assert_eq!(stats.transferred, 1_000_000);
    let speed = finish_copy(&mut stats, true, 2_000_000).unwrap().unwrap();
    assert_eq!(speed, 500_000);
    assert_eq!(stats.time_taken_micros, 2_000_000);
}

#[test]
fn directory_failure_aborts_by_default() {
    let mut stats = TransferStats::new();
    let mut d = DirectoryCopy::new("/s", "/d", ten_files(), false, false, &mut stats);
    assert_eq!(d.on_copied(false), FileVerdict::Abort);
    assert_eq!(d.next, 0);
}

#[test]
fn directory_failure_skipped_when_ignored() {
    let mut stats = TransferStats::new();
    let mut d = DirectoryCopy::new("/s", "/d", ten_files(), false, true, &mut stats);
    assert_eq!(d.on_copied(false), FileVerdict::Skip);
    assert_eq!(d.next, 1);
    let (s, _) = d.next_paths().unwrap();
    assert_eq!(s, "/s/f1");
}

#[test]
fn directory_move_removes_sources() {
    let mut stats = TransferStats::new();
    let mut d = DirectoryCopy::new("/s", "/d", ten_files(), true, false, &mut stats);
    assert_eq!(d.on_copied(true), FileVerdict::RemoveSource);
    assert!(d.on_removed(true));
    assert_eq!(d.next, 1);
    assert_eq!(d.on_copied(true), FileVerdict::RemoveSource);
    assert!(!d.on_removed(false));
    assert_eq!(d.next, 1);
    assert!(d.removes_tree());
}

#[test]
fn failed_removal_ignored_when_asked() {
    let mut stats = TransferStats::new();
    let mut d = DirectoryCopy::new("/s", "/d", ten_files(), true, true, &mut stats);
    assert_eq!(d.on_copied(true), FileVerdict::RemoveSource);
    assert!(d.on_removed(false));
    assert_eq!(d.next, 1);
}

#[test]
fn directory_total_saturates() {
    let files = vec![
        DirFile { path: "a".into(), size: u64::MAX },
        DirFile { path: "b".into(), size: 5 },
    ];
    let mut stats = TransferStats::new();
    let _ = DirectoryCopy::new("/s", "/d", files, false, false, &mut stats);
    assert_eq!(stats.total, u64::MAX);
}

#[test]
fn throughput_values() {
    assert_eq!(throughput(1_000_000, 1_000_000), 1_000_000);
    assert_eq!(throughput(1_000_000, 0), 1_000_000_000_000);
    assert_eq!(throughput(0, 0), 0);
    assert_eq!(throughput(3, 2), 1_500_000);
    assert_eq!(throughput(u64::MAX, 1), u64::MAX);
}

#[test]
fn stats_not_requested() {
    let mut stats = TransferStats::single_file(7);
    stats.transferred = 7;
    assert_eq!(finish_copy(&mut stats, false, 9), Ok(None));
    assert_eq!(stats.time_taken_micros, 0);
}

#[test]
fn walk_visits_subdirectories_in_listing_order() {
    let mut w = DirWalk::new();
    let mut seen = Vec::new();
    while let Some(dir) = w.next_dir() {
        seen.push(dir.clone());
        let listing: Vec<ListedEntry> = match dir.as_str() {
            "" => vec![
                ListedEntry { name: "x".into(), is_dir: true, size: 0 },
                ListedEntry { name: "f".into(), is_dir: false, size: 1 },
                ListedEntry { name: "y".into(), is_dir: true, size: 0 },
            ],
            "x" => vec![ListedEntry { name: "x1".into(), is_dir: true, size: 0 }],
            _ => Vec::new(),
        };
        w.on_listing(&dir, &listing);
    }
    assert_eq!(seen, vec!["", "x", "x/x1", "y"]);
}

#[test]
fn single_file_move_verdicts() {
    assert_eq!(single_file_verdict(true, true), FileVerdict::RemoveSource);
    assert_eq!(single_file_verdict(true, false), FileVerdict::Continue);
    assert_eq!(single_file_verdict(false, true), FileVerdict::Abort);
    assert_eq!(single_file_verdict(false, false), FileVerdict::Abort);
}
