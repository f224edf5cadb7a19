//! What holds of the figures, whatever the readings are.
//!
//! Each statement here is proved from the definitions in
//! [`crate::resource`] and [`crate::cgroup`], which are the ones that the
//! contracts of `limit`, `used` and `available` speak of.

use crate::cgroup::{quantity_in, LIMIT_PATH, USAGE_PATH};
use crate::errors::ErrorView;
use crate::resource::{ReadingsView, Resource};
use vstd::prelude::*;

verus! {

/// While the control group reports no more in use than its limit, what is
/// available of the operating system's memory is the limit less the
/// usage.
pub proof fn os_available_below_limit(readings: ReadingsView, limit: usize, used: usize)
    requires
        readings.os_limit == Ok::<usize, ErrorView>(limit),
        readings.os_used == Ok::<usize, ErrorView>(used),
        used <= limit,
    ensures
        Resource::OsMemory.available_from(readings) == Ok::<usize, ErrorView>(
            (limit - used) as usize,
        ),
{
}

/// Where the control group reports more in use than its limit, nothing is
/// available of the operating system's memory: the figure is zero, it
/// does not wrap and it is no failure.
pub proof fn os_available_above_limit(readings: ReadingsView, limit: usize, used: usize)
    requires
        readings.os_limit == Ok::<usize, ErrorView>(limit),
        readings.os_used == Ok::<usize, ErrorView>(used),
        used > limit,
    ensures
        Resource::OsMemory.available_from(readings) == Ok::<usize, ErrorView>(0),
{
}

/// While the allocator reports no more in use than it has reserved, what
/// is available of its memory is the reservation less the usage.
pub proof fn allocator_available_below_reserve(readings: ReadingsView, reserved: usize, used: usize)
    requires
        readings.allocator_reserved == Ok::<usize, ErrorView>(reserved),
        readings.allocator_used == Ok::<usize, ErrorView>(used),
        used <= reserved,
    ensures
        Resource::AllocatorMemory.available_from(readings) == Ok::<usize, ErrorView>(
            (reserved - used) as usize,
        ),
{
}

/// Where the allocator reports more in use than it has reserved, nothing
/// is available of its memory: the figure is zero, it does not wrap and
/// it is no failure.
pub proof fn allocator_available_above_reserve(readings: ReadingsView, reserved: usize, used: usize)
    requires
        readings.allocator_reserved == Ok::<usize, ErrorView>(reserved),
        readings.allocator_used == Ok::<usize, ErrorView>(used),
        used > reserved,
    ensures
        Resource::AllocatorMemory.available_from(readings) == Ok::<usize, ErrorView>(0),
{
}

/// What is used of memory as a whole is what the operating system counts
/// as used, less what is available from the allocator, and zero where the
/// allocator has more available than the operating system counts. Where
/// one of the two could not be had, neither can this, and the failure is
/// theirs: that of the usage before that of the allocator.
pub proof fn memory_used_is_os_used_less_allocator_available(readings: ReadingsView)
    ensures
        match (
            Resource::OsMemory.used_from(readings),
            Resource::AllocatorMemory.available_from(readings),
        ) {
            (Ok(used), Ok(idle)) => Resource::Memory.used_from(readings) == Ok::<
                usize,
                ErrorView,
            >(
                if idle <= used {
                    (used - idle) as usize
                } else {
                    0
                },
            ),
            (Err(error), _) => Resource::Memory.used_from(readings) == Err::<usize, ErrorView>(
                error,
            ),
            (Ok(_), Err(error)) => Resource::Memory.used_from(readings) == Err::<
                usize,
                ErrorView,
            >(error),
        },
{
}

/// What is available of memory as a whole is what is available from the
/// operating system and what is available from the allocator together,
/// and `usize::MAX` where the two together reach beyond it. Where one of
/// the two could not be had, neither can this, and the failure is theirs:
/// that of the operating system before that of the allocator.
pub proof fn memory_available_is_os_available_and_allocator_available(readings: ReadingsView)
    ensures
        match (
            Resource::OsMemory.available_from(readings),
            Resource::AllocatorMemory.available_from(readings),
        ) {
            (Ok(headroom), Ok(idle)) => Resource::Memory.available_from(readings) == Ok::<
                usize,
                ErrorView,
            >(
                if headroom + idle <= usize::MAX {
                    (headroom + idle) as usize
                } else {
                    usize::MAX
                },
            ),
            (Err(error), _) => Resource::Memory.available_from(readings) == Err::<
                usize,
                ErrorView,
            >(error),
            (Ok(_), Err(error)) => Resource::Memory.available_from(readings) == Err::<
                usize,
                ErrorView,
            >(error),
        },
{
}

/// The limit of memory as a whole is the operating system's: there is no
/// other ceiling.
pub proof fn memory_limit_is_os_limit(readings: ReadingsView)
    ensures
        Resource::Memory.limit_from(readings) == Resource::OsMemory.limit_from(readings),
{
}

/// Whatever was read, to ask the allocator for a limit fails, and the
/// failure says that a limit does not apply to the allocator's memory.
pub proof fn allocator_limit_is_not_applicable(readings: ReadingsView)
    ensures
        Resource::AllocatorMemory.limit_from(readings) == Err::<usize, ErrorView>(
            ErrorView::NotApplicable("limit"@, Resource::AllocatorMemory),
        ),
{
}

/// Where an accounting file could not be read, the figures that are read
/// from it fail, and the failure holds the path of that very file.
pub proof fn unreadable_file_is_named(
    readings: ReadingsView,
    limit_file: Option<Seq<char>>,
    usage_file: Option<Seq<char>>,
)
    requires
        readings.reads_files(limit_file, usage_file),
    ensures
        limit_file is None ==> {
            &&& Resource::OsMemory.limit_from(readings) == Err::<usize, ErrorView>(
                ErrorView::File(LIMIT_PATH@),
            )
            &&& Resource::Memory.limit_from(readings) == Err::<usize, ErrorView>(
                ErrorView::File(LIMIT_PATH@),
            )
            &&& Resource::OsMemory.available_from(readings) == Err::<usize, ErrorView>(
                ErrorView::File(LIMIT_PATH@),
            )
        },
        usage_file is None ==> {
            &&& Resource::OsMemory.used_from(readings) == Err::<usize, ErrorView>(
                ErrorView::File(USAGE_PATH@),
            )
            &&& Resource::Memory.used_from(readings) == Err::<usize, ErrorView>(
                ErrorView::File(USAGE_PATH@),
            )
        },
{
}

/// Where an accounting file was read, the figure that is read from it is
/// the quantity in its contents, and where the contents hold none it
/// fails with the path of that very file. No other value comes of it.
pub proof fn file_contents_decide(readings: ReadingsView, limit_file: Seq<char>, usage_file: Seq<char>)
    requires
        readings.reads_files(Some(limit_file), Some(usage_file)),
    ensures
        Resource::OsMemory.limit_from(readings) == match quantity_in(limit_file) {
            Some(bytes) => Ok::<usize, ErrorView>(bytes),
            None => Err::<usize, ErrorView>(ErrorView::File(LIMIT_PATH@)),
        },
        Resource::OsMemory.used_from(readings) == match quantity_in(usage_file) {
            Some(bytes) => Ok::<usize, ErrorView>(bytes),
            None => Err::<usize, ErrorView>(ErrorView::File(USAGE_PATH@)),
        },
{
}

/// A figure is had only where every leaf that it rests on was had, and a
/// figure that fails fails as one of those leaves did.
pub proof fn figures_rest_on_their_leaves(readings: ReadingsView)
    ensures
        Resource::Memory.used_from(readings) is Ok <==> readings.os_used is Ok
            && readings.allocator_reserved is Ok && readings.allocator_used is Ok,
        Resource::Memory.available_from(readings) is Ok <==> readings.os_limit is Ok
            && readings.os_used is Ok && readings.allocator_reserved is Ok
            && readings.allocator_used is Ok,
        Resource::OsMemory.available_from(readings) is Ok <==> readings.os_limit is Ok
            && readings.os_used is Ok,
        Resource::AllocatorMemory.available_from(readings) is Ok <==> readings.allocator_reserved
            is Ok && readings.allocator_used is Ok,
        forall|kind: Resource|
            #![trigger kind.available_from(readings)]
            #![trigger kind.used_from(readings)]
            kind.is_known() ==> {
                &&& kind.used_from(readings) matches Err(error) ==> is_leaf_failure(
                    readings,
                    error,
                )
                &&& kind.available_from(readings) matches Err(error) ==> is_leaf_failure(
                    readings,
                    error,
                )
            },
{
}

/// Whether one of the four leaves failed in this way.
pub open spec fn is_leaf_failure(readings: ReadingsView, error: ErrorView) -> bool {
    ||| readings.os_limit == Err::<usize, ErrorView>(error)
    ||| readings.os_used == Err::<usize, ErrorView>(error)
    ||| readings.allocator_reserved == Err::<usize, ErrorView>(error)
    ||| readings.allocator_used == Err::<usize, ErrorView>(error)
}

} // verus!
