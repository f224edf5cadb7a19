//! The heap allocator's own account of the heap.
//!
//! The allocator answers questions about named counters through one
//! control call, which hands back a status and, where the status is zero,
//! the value asked for. This module names the counters that matter here
//! and says what an answer means.

use crate::errors::ErrorKind;
use vstd::prelude::*;

verus! {

/// The counter of bytes in pages that hold live allocations.
pub const ACTIVE: &'static str = "stats.active";

/// The counter of bytes in the chunks that the allocator has mapped.
pub const MAPPED: &'static str = "stats.mapped";

/// The flag that says whether the allocator was built to keep counters.
pub const STATS: &'static str = "config.stats";

/// What one control call has come to: the value where the status is
/// zero, and a failure for any other status.
pub fn mallctl_read<T>(status: i32, value: T) -> (result: Result<T, ErrorKind>)
    ensures
        status == 0 ==> result == Ok::<T, ErrorKind>(value),
        status != 0 ==> result == Err::<T, ErrorKind>(ErrorKind::AllocatorQueryFailed),
{
    if status != 0 {
        return Err(ErrorKind::AllocatorQueryFailed);
    }
    Ok(value)
}

/// Are our allocator stats enabled? Takes the answer to a query for
/// [`STATS`]. A query that failed counts as a flag that is not set.
pub fn allocator_stats_enabled(status: i32, flag: u8) -> (enabled: bool)
    ensures
        enabled == (status == 0 && flag != 0),
{
    match mallctl_read(status, flag) {
        Ok(flag) => flag != 0,
        Err(_) => false,
    }
}

} // verus!
