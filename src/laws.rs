use vstd::prelude::*;
use crate::dircopy::{spec_verdict, total_size, FileVerdict};
use crate::error::{CopyError, ErrorClass};
use crate::filecopy::{
    spec_begin, spec_finish, spec_plan, spec_request, spec_step, DestinationPlan, FileTransfer,
};
use crate::paths::{spec_target, PathKind};
use crate::walker::DirFile;

verus! {

/// Whether `chunks` is a run of non-empty chunks that the transfer loop
/// accepts from state `t`: each within the size that `next_request` asks for.
pub open spec fn valid_chunks(t: FileTransfer, chunks: Seq<u64>) -> bool
    decreases chunks.len(),
{
    chunks.len() == 0 || (spec_request(t) matches Some(m) && 0 < chunks[0] <= m && valid_chunks(
        spec_step(t, chunks[0]),
        chunks.drop_first(),
    ))
}

/// The transfer state after a run of chunks.
pub open spec fn run_chunks(t: FileTransfer, chunks: Seq<u64>) -> FileTransfer
    decreases chunks.len(),
{
    if chunks.len() == 0 {
        t
    } else {
        run_chunks(spec_step(t, chunks[0]), chunks.drop_first())
    }
}

/// Sum of a run of chunk sizes.
pub open spec fn chunk_sum(chunks: Seq<u64>) -> nat
    decreases chunks.len(),
{
    if chunks.len() == 0 {
        0
    } else {
        (chunks[0] + chunk_sum(chunks.drop_first())) as nat
    }
}

/// A run of accepted chunks adds exactly their sum to the count and never
/// goes past the source size.
pub proof fn lemma_run_counts_chunks(t: FileTransfer, chunks: Seq<u64>)
    requires
        t.done <= t.size,
        valid_chunks(t, chunks),
    ensures
        run_chunks(t, chunks).done == t.done + chunk_sum(chunks),
        run_chunks(t, chunks).done <= t.size,
        run_chunks(t, chunks).start == t.start,
        run_chunks(t, chunks).size == t.size,
    decreases chunks.len(),
{
    if chunks.len() > 0 {
        lemma_run_counts_chunks(spec_step(t, chunks[0]), chunks.drop_first());
    }
}

/// A copy without resume writes a fresh destination (created or truncated,
/// never appended to), starts from the first byte of the source, and is
/// accepted only when the chunks it moved add up to the whole source.
pub proof fn lemma_plain_copy_moves_whole_file(
    dst_exists: bool,
    force: bool,
    size: u64,
    dst_len: u64,
    block_size: u64,
    chunks: Seq<u64>,
)
    requires
        spec_plan(dst_exists, force, false) is Ok,
        valid_chunks(
            spec_begin(spec_plan(dst_exists, force, false)->Ok_0, size, dst_len, block_size),
            chunks,
        ),
    ensures
        spec_plan(dst_exists, force, false)->Ok_0 != DestinationPlan::Continue,
        spec_begin(spec_plan(dst_exists, force, false)->Ok_0, size, dst_len, block_size).done
            == 0,
        spec_finish(
            run_chunks(
                spec_begin(spec_plan(dst_exists, force, false)->Ok_0, size, dst_len, block_size),
                chunks,
            ),
        ) is Ok <==> chunk_sum(chunks) == size,
{
    let t = spec_begin(spec_plan(dst_exists, force, false)->Ok_0, size, dst_len, block_size);
    lemma_run_counts_chunks(t, chunks);
}

/// Resuming a copy whose destination already holds `k` of the source's
/// `n` bytes continues the destination, counts the `k` bytes as done, asks
/// only for bytes past them, and is accepted exactly when the bytes from
/// `k` up to `n` have been moved.
pub proof fn lemma_resume_moves_rest(
    force: bool,
    n: u64,
    k: u64,
    block_size: u64,
    chunks: Seq<u64>,
)
    requires
        k <= n,
        valid_chunks(spec_begin(DestinationPlan::Continue, n, k, block_size), chunks),
    ensures
        spec_plan(true, force, true) == Ok::<DestinationPlan, CopyError>(
            DestinationPlan::Continue,
        ),
        spec_begin(DestinationPlan::Continue, n, k, block_size).done == k,
        chunk_sum(chunks) <= n - k,
        spec_finish(run_chunks(spec_begin(DestinationPlan::Continue, n, k, block_size), chunks))
            is Ok <==> chunk_sum(chunks) == n - k,
{
    lemma_run_counts_chunks(spec_begin(DestinationPlan::Continue, n, k, block_size), chunks);
}

/// With force, a copy onto a destination is accepted whether or not the
/// destination exists, so a second copy after a first one is accepted too,
/// and both write the destination afresh from the first byte.
pub proof fn lemma_forced_copy_repeats(dst_exists: bool)
    ensures
        spec_plan(dst_exists, true, false) is Ok,
        spec_plan(dst_exists, true, false)->Ok_0 != DestinationPlan::Continue,
        spec_plan(true, true, false) == Ok::<DestinationPlan, CopyError>(
            DestinationPlan::Overwrite,
        ),
{
}

/// A directory source without the recursive flag is refused as invalid
/// input, whatever the destination is.
pub proof fn lemma_directory_needs_recursion(src: Seq<char>, dst: Seq<char>, dst_kind: PathKind)
    ensures
        spec_target(src, dst, true, false, dst_kind) == Err::<Seq<char>, CopyError>(
            CopyError::DirectoryWithoutRecursion,
        ),
        CopyError::DirectoryWithoutRecursion.spec_class() == ErrorClass::InvalidInput,
{
}

/// The transferred counter of the operation after a run of chunks, as
/// `FileTransfer::on_chunk` moves it.
pub open spec fn counter_after(x: u64, chunks: Seq<u64>) -> u64
    decreases chunks.len(),
{
    if chunks.len() == 0 {
        x
    } else {
        counter_after(x.saturating_add(chunks[0]), chunks.drop_first())
    }
}

proof fn lemma_counter_adds_sum(x: u64, chunks: Seq<u64>)
    requires
        x + chunk_sum(chunks) <= u64::MAX,
    ensures
        counter_after(x, chunks) == x + chunk_sum(chunks),
    decreases chunks.len(),
{
    if chunks.len() > 0 {
        lemma_counter_adds_sum((x + chunks[0]) as u64, chunks.drop_first());
    }
}

/// A file copy that is accepted adds exactly the file's size to the
/// operation's transferred counter, counting the resumed prefix when it
/// begins and each chunk after, as long as the counter does not saturate.
pub proof fn lemma_file_adds_its_size(
    x: u64,
    plan: DestinationPlan,
    size: u64,
    dst_len: u64,
    block_size: u64,
    chunks: Seq<u64>,
)
    requires
        x + size <= u64::MAX,
        valid_chunks(spec_begin(plan, size, dst_len, block_size), chunks),
        spec_finish(run_chunks(spec_begin(plan, size, dst_len, block_size), chunks)) is Ok,
    ensures
        counter_after(x.saturating_add(spec_begin(plan, size, dst_len, block_size).start), chunks)
            == x + size,
{
    let t = spec_begin(plan, size, dst_len, block_size);
    if t.done <= t.size {
        lemma_run_counts_chunks(t, chunks);
        lemma_counter_adds_sum((x + t.start) as u64, chunks);
    } else {
        assert(chunks.len() == 0);
    }
}

/// Sum of the bytes that a list of file transfers reached.
pub open spec fn done_sum(runs: Seq<FileTransfer>) -> nat
    decreases runs.len(),
{
    if runs.len() == 0 {
        0
    } else {
        (done_sum(runs.drop_last()) + runs.last().done) as nat
    }
}

/// When every file of a tree copy is accepted, the bytes transferred add up
/// to the total of the file sizes computed before the transfer.
pub proof fn lemma_tree_total(files: Seq<DirFile>, runs: Seq<FileTransfer>)
    requires
        files.len() == runs.len(),
        forall|i: int| 0 <= i < runs.len() ==> #[trigger] runs[i].size == files[i].size,
        forall|i: int| 0 <= i < runs.len() ==> #[trigger] spec_finish(runs[i]) is Ok,
    ensures
        done_sum(runs) == total_size(files),
    decreases runs.len(),
{
    if runs.len() > 0 {
        let last = runs.len() - 1;
        assert(runs[last].size == files[last].size);
        assert(spec_finish(runs[last]) is Ok);
        lemma_tree_total(files.drop_last(), runs.drop_last());
    }
}

/// Under move semantics every file that is copied, alone or as part of a
/// directory, has its source removed next; without it no source is
/// removed. A single file that failed is never removed.
pub proof fn lemma_move_removes_sources(no_dir_err: bool)
    ensures
        spec_verdict(true, true, no_dir_err) == FileVerdict::RemoveSource,
        spec_verdict(true, false, no_dir_err) == FileVerdict::Continue,
        spec_verdict(false, true, false) == FileVerdict::Abort,
{
}

} // verus!
