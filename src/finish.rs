use vstd::prelude::*;
use crate::dircopy::saturate;
use crate::error::CopyError;
use crate::options::TransferStats;

verus! {

/// Bytes per second for `total` bytes moved in `micros` microseconds; an
/// elapsed time under one microsecond counts as one.
pub open spec fn spec_throughput(total: u64, micros: u64) -> u64 {
    let d: int = if micros == 0 { 1 } else { micros as int };
    saturate((total as int * 1000000) / d)
}

/// Transfer speed in bytes per second, saturating at the largest `u64`.
pub fn throughput(total: u64, micros: u64) -> (r: u64)
    ensures
        r == spec_throughput(total, micros),
{
    let d: u128 = if micros == 0 {
        1
    } else {
        micros as u128
    };
    assert(total as u128 * 1000000u128 <= u128::MAX) by (nonlinear_arith)
        requires
            total <= u64::MAX,
    ;
    let p: u128 = total as u128 * 1000000u128;
    let q: u128 = p / d;
    if q > u64::MAX as u128 {
        u64::MAX
    } else {
        q as u64
    }
}

pub open spec fn spec_finish_copy(stats: TransferStats, show_stats: bool, micros: u64) -> Result<
    Option<u64>,
    CopyError,
> {
    if stats.transferred != stats.total {
        Err(CopyError::TotalMismatch { transferred: stats.transferred, total: stats.total })
    } else if show_stats {
        Ok(Some(spec_throughput(stats.total, micros)))
    } else {
        Ok(None)
    }
}

/// The closing check of a copy: the bytes transferred must equal the total
/// computed before the transfer, even when no step reported a failure.
/// When statistics are asked for, the elapsed time is recorded and the
/// throughput in bytes per second is returned.
pub fn finish_copy(stats: &mut TransferStats, show_stats: bool, elapsed_micros: u64) -> (r:
    Result<Option<u64>, CopyError>)
    ensures
        r == spec_finish_copy(*old(stats), show_stats, elapsed_micros),
        final(stats).transferred == old(stats).transferred,
        final(stats).total == old(stats).total,
        final(stats).time_taken_micros == (if r matches Ok(Some(_)) {
            elapsed_micros
        } else {
            old(stats).time_taken_micros
        }),
{
    if stats.transferred != stats.total {
        return Err(CopyError::TotalMismatch { transferred: stats.transferred, total: stats.total });
    }
    if show_stats {
        stats.time_taken_micros = elapsed_micros;
        Ok(Some(throughput(stats.total, elapsed_micros)))
    } else {
        Ok(None)
    }
}

} // verus!
