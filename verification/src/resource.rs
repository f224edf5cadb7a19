//! The kinds of resource and what each one reports.
//!
//! Every figure is computed from a [`Readings`]: the four leaf values that
//! the operating system and the heap allocator were asked for, each of
//! which may have failed. A failure is never replaced by a default. The
//! first leaf that an operation consults and that failed is returned as it
//! is.
//!
//! The two sources are never read at the same instant, so one may have
//! moved on while the other was read. Where a difference would fall below
//! zero the figure is zero, and where a sum would pass `usize::MAX` it is
//! `usize::MAX`: a figure never wraps.

use crate::cgroup::{file_outcome, read_file_usize, LIMIT_PATH, USAGE_PATH};
use crate::errors::{outcome, ErrorKind, ErrorView, Outcome, Reading};
use vstd::prelude::*;

verus! {

/// `minuend - subtrahend`, or zero where that would be negative.
pub open spec fn clamped_difference(minuend: usize, subtrahend: usize) -> usize {
    if subtrahend <= minuend {
        (minuend - subtrahend) as usize
    } else {
        0
    }
}

/// `left + right`, or `usize::MAX` where that would not fit.
pub open spec fn clamped_sum(left: usize, right: usize) -> usize {
    if left + right <= usize::MAX {
        (left + right) as usize
    } else {
        usize::MAX
    }
}

/// The difference of two outcomes, clamped at zero. Where either failed,
/// the failure, and that of the minuend before that of the subtrahend.
pub open spec fn difference_of(minuend: Outcome, subtrahend: Outcome) -> Outcome {
    match (minuend, subtrahend) {
        (Ok(m), Ok(s)) => Ok(clamped_difference(m, s)),
        (Err(error), _) => Err(error),
        (Ok(_), Err(error)) => Err(error),
    }
}

/// The sum of two outcomes, clamped at `usize::MAX`. Where either failed,
/// the failure, and that on the left before that on the right.
pub open spec fn sum_of(left: Outcome, right: Outcome) -> Outcome {
    match (left, right) {
        (Ok(l), Ok(r)) => Ok(clamped_sum(l, r)),
        (Err(error), _) => Err(error),
        (Ok(_), Err(error)) => Err(error),
    }
}

/// What the control group says of the process at one instant. Usage may
/// stand at or above the limit while the kernel reclaims memory.
#[derive(Debug, Clone, Copy, PartialEq, Eq, Structural)]
pub struct OsSnapshot {
    /// The most that the process may use, in bytes.
    pub limit: usize,
    /// What the process is charged with, in bytes.
    pub used: usize,
}

impl OsSnapshot {
    /// What is left below the limit; zero where usage stands above it.
    pub open spec fn headroom(self) -> usize {
        clamped_difference(self.limit, self.used)
    }

    /// What is left below the limit; zero where usage stands above it.
    pub fn available(&self) -> (bytes: usize)
        ensures
            bytes == self.headroom(),
            self.used <= self.limit ==> bytes == self.limit - self.used,
            self.used > self.limit ==> bytes == 0,
    {
        self.limit.saturating_sub(self.used)
    }
}

/// What the heap allocator says of itself at one instant. Mostly
/// `used <= reserved`, but the two counters are read one after the other
/// and nothing here relies on it.
#[derive(Debug, Clone, Copy, PartialEq, Eq, Structural)]
pub struct AllocatorSnapshot {
    /// Bytes in pages that hold live allocations.
    pub used: usize,
    /// Bytes that the allocator has mapped for the heap.
    pub reserved: usize,
}

impl AllocatorSnapshot {
    /// What is mapped and holds nothing; zero where more is reported in
    /// use than mapped.
    pub open spec fn idle(self) -> usize {
        clamped_difference(self.reserved, self.used)
    }

    /// What is mapped and holds nothing; zero where more is reported in
    /// use than mapped.
    pub fn available(&self) -> (bytes: usize)
        ensures
            bytes == self.idle(),
            self.used <= self.reserved ==> bytes == self.reserved - self.used,
            self.used > self.reserved ==> bytes == 0,
    {
        self.reserved.saturating_sub(self.used)
    }
}

/// The four leaf values that every figure is computed from.
#[derive(Debug, PartialEq, Eq)]
pub struct Readings {
    /// The number in the control group's limit file.
    pub os_limit: Reading,
    /// The number in the control group's usage file.
    pub os_used: Reading,
    /// The allocator's count of bytes in active pages.
    pub allocator_used: Reading,
    /// The allocator's count of bytes that it has mapped.
    pub allocator_reserved: Reading,
}

/// The four leaf values, each as an [`Outcome`].
pub struct ReadingsView {
    /// The number in the control group's limit file.
    pub os_limit: Outcome,
    /// The number in the control group's usage file.
    pub os_used: Outcome,
    /// The allocator's count of bytes in active pages.
    pub allocator_used: Outcome,
    /// The allocator's count of bytes that it has mapped.
    pub allocator_reserved: Outcome,
}

impl View for Readings {
    type V = ReadingsView;

    open spec fn view(&self) -> ReadingsView {
        ReadingsView {
            os_limit: outcome(self.os_limit),
            os_used: outcome(self.os_used),
            allocator_used: outcome(self.allocator_used),
            allocator_reserved: outcome(self.allocator_reserved),
        }
    }
}

/// A copy of a leaf value.
fn copy_of(reading: &Reading) -> (copy: Reading)
    ensures
        outcome(copy) == outcome(*reading),
{
    match reading {
        Ok(bytes) => Ok(*bytes),
        Err(error) => Err(error.clone()),
    }
}

impl Clone for Readings {
    fn clone(&self) -> (copy: Self)
        ensures
            copy@ == self@,
    {
        Readings {
            os_limit: copy_of(&self.os_limit),
            os_used: copy_of(&self.os_used),
            allocator_used: copy_of(&self.allocator_used),
            allocator_reserved: copy_of(&self.allocator_reserved),
        }
    }
}

impl ReadingsView {
    /// Whether the two readings of the control group are what files with
    /// these contents yield, where nothing stands for a file that could
    /// not be read.
    pub open spec fn reads_files(
        self,
        limit_file: Option<Seq<char>>,
        usage_file: Option<Seq<char>>,
    ) -> bool {
        &&& self.os_limit == file_outcome(LIMIT_PATH@, limit_file)
        &&& self.os_used == file_outcome(USAGE_PATH@, usage_file)
    }

    /// Limit and usage as the control group has them: the limit is
    /// consulted first, so its failure is the one reported.
    pub open spec fn os_state(self) -> Result<OsSnapshot, ErrorView> {
        match (self.os_limit, self.os_used) {
            (Ok(limit), Ok(used)) => Ok(OsSnapshot { limit, used }),
            (Err(error), _) => Err(error),
            (Ok(_), Err(error)) => Err(error),
        }
    }

    /// Usage and reservation as the allocator has them: the reservation
    /// is consulted first, so its failure is the one reported.
    pub open spec fn allocator_state(self) -> Result<AllocatorSnapshot, ErrorView> {
        match (self.allocator_reserved, self.allocator_used) {
            (Ok(reserved), Ok(used)) => Ok(AllocatorSnapshot { used, reserved }),
            (Err(error), _) => Err(error),
            (Ok(_), Err(error)) => Err(error),
        }
    }

    /// What is left below the control group's limit.
    pub open spec fn os_available(self) -> Outcome {
        match self.os_state() {
            Ok(os) => Ok(os.headroom()),
            Err(error) => Err(error),
        }
    }

    /// What the allocator has mapped and not filled.
    pub open spec fn allocator_available(self) -> Outcome {
        match self.allocator_state() {
            Ok(heap) => Ok(heap.idle()),
            Err(error) => Err(error),
        }
    }
}

impl Readings {
    /// Puts the four leaf values together from what was read.
    ///
    /// `limit_file` and `usage_file` are the contents of the files at
    /// [`LIMIT_PATH`] and [`USAGE_PATH`], or nothing where the file could
    /// not be opened or read. The allocator's two counters are taken as
    /// they are.
    pub fn gather(
        limit_file: Option<&str>,
        usage_file: Option<&str>,
        allocator_used: Reading,
        allocator_reserved: Reading,
    ) -> (readings: Readings)
        ensures
            readings@.reads_files(limit_file.deep_view(), usage_file.deep_view()),
            readings.allocator_used == allocator_used,
            readings.allocator_reserved == allocator_reserved,
    {
        Readings {
            os_limit: read_file_usize(LIMIT_PATH, limit_file),
            os_used: read_file_usize(USAGE_PATH, usage_file),
            allocator_used,
            allocator_reserved,
        }
    }

    /// The control group's two values together, or the first failure.
    pub fn os_snapshot(&self) -> (snapshot: Result<OsSnapshot, ErrorKind>)
        ensures
            match snapshot {
                Ok(os) => self@.os_state() == Ok::<OsSnapshot, ErrorView>(os),
                Err(error) => self@.os_state() == Err::<OsSnapshot, ErrorView>(error@),
            },
    {
        match &self.os_limit {
            Err(error) => Err(error.clone()),
            Ok(limit) => match &self.os_used {
                Err(error) => Err(error.clone()),
                Ok(used) => Ok(OsSnapshot { limit: *limit, used: *used }),
            },
        }
    }

    /// The allocator's two values together, or the first failure.
    pub fn allocator_snapshot(&self) -> (snapshot: Result<AllocatorSnapshot, ErrorKind>)
        ensures
            match snapshot {
                Ok(heap) => self@.allocator_state() == Ok::<AllocatorSnapshot, ErrorView>(heap),
                Err(error) => self@.allocator_state() == Err::<AllocatorSnapshot, ErrorView>(
                    error@,
                ),
            },
    {
        match &self.allocator_reserved {
            Err(error) => Err(error.clone()),
            Ok(reserved) => match &self.allocator_used {
                Err(error) => Err(error.clone()),
                Ok(used) => Ok(AllocatorSnapshot { used: *used, reserved: *reserved }),
            },
        }
    }
}

/// Types of resource we can monitor. This type may be extended with new
/// variants; do not attempt to exhaustively match against it.
///
/// Note that `r.used(..) + r.available(..)` may not equal `r.limit(..)`.
/// There are various estimates and bookkeeping overhead taking place
/// under the hood.
#[derive(Debug, Clone, Copy, PartialEq, Eq, Structural)]
pub enum Resource {
    /// Total RAM in bytes, including both RAM available at the OS level,
    /// and RAM which has been reserved by the heap allocator and not used.
    Memory,
    /// Heap allocator RAM in bytes. This does not support `limit`.
    AllocatorMemory,
    /// OS memory, in bytes. Some of the RAM shown as `used` here may still
    /// be available from the heap allocator.
    OsMemory,
    /// A private internal variant to allow future extensibility. No
    /// operation accepts it.
    __Private,
}

impl Resource {
    /// Whether this is one of the kinds that can be asked about.
    pub open spec fn is_known(self) -> bool {
        self != Resource::__Private
    }

    /// The name of the kind, as it is written in the source.
    pub open spec fn label(self) -> Seq<char> {
        match self {
            Resource::Memory => "Memory"@,
            Resource::AllocatorMemory => "AllocatorMemory"@,
            Resource::OsMemory => "OsMemory"@,
            Resource::__Private => "__Private"@,
        }
    }

    /// The name of the kind, as it is written in the source.
    pub fn name(&self) -> (name: &'static str)
        ensures
            name@ == self.label(),
    {
        match self {
            Resource::Memory => "Memory",
            Resource::AllocatorMemory => "AllocatorMemory",
            Resource::OsMemory => "OsMemory",
            Resource::__Private => "__Private",
        }
    }

    /// The most of the resource that the process may consume.
    ///
    /// The only ceiling on memory is the control group's. The allocator
    /// has none of its own, and to ask for one is an error, never zero and
    /// never the control group's limit.
    pub open spec fn limit_from(self, readings: ReadingsView) -> Outcome
        recommends
            self.is_known(),
    {
        match self {
            Resource::Memory | Resource::OsMemory => readings.os_limit,
            Resource::AllocatorMemory => Err(
                ErrorView::NotApplicable("limit"@, Resource::AllocatorMemory),
            ),
            Resource::__Private => arbitrary(),
        }
    }

    /// What the process consumes of the resource.
    ///
    /// The control group charges the process with all that the allocator
    /// has mapped. What the allocator has mapped and not filled holds no
    /// data, so for memory as a whole it is taken off again.
    pub open spec fn used_from(self, readings: ReadingsView) -> Outcome
        recommends
            self.is_known(),
    {
        match self {
            Resource::Memory => difference_of(readings.os_used, readings.allocator_available()),
            Resource::AllocatorMemory => readings.allocator_used,
            Resource::OsMemory => readings.os_used,
            Resource::__Private => arbitrary(),
        }
    }

    /// What the process may still take of the resource.
    ///
    /// For memory as a whole this is what is left below the control
    /// group's limit together with what the allocator has mapped and not
    /// filled: both can be had without asking the kernel for more.
    pub open spec fn available_from(self, readings: ReadingsView) -> Outcome
        recommends
            self.is_known(),
    {
        match self {
            Resource::Memory => sum_of(readings.os_available(), readings.allocator_available()),
            Resource::AllocatorMemory => readings.allocator_available(),
            Resource::OsMemory => readings.os_available(),
            Resource::__Private => arbitrary(),
        }
    }

    /// What is the maximum amount of the resource this process may consume?
    pub fn limit(&self, readings: &Readings) -> (result: Reading)
        requires
            self.is_known(),
        ensures
            outcome(result) == self.limit_from(readings@),
    {
        match self {
            Resource::AllocatorMemory => Err(
                ErrorKind::NotApplicable("limit", Resource::AllocatorMemory),
            ),
            _ => copy_of(&readings.os_limit),
        }
    }

    /// What is the current amount of the resource consumed by this process?
    pub fn used(&self, readings: &Readings) -> (result: Reading)
        requires
            self.is_known(),
        ensures
            outcome(result) == self.used_from(readings@),
    {
        match self {
            Resource::Memory => {
                let os_used = match &readings.os_used {
                    Ok(bytes) => *bytes,
                    Err(error) => { return Err(error.clone()); },
                };
                let heap = match readings.allocator_snapshot() {
                    Ok(heap) => heap,
                    Err(error) => { return Err(error); },
                };
                Ok(os_used.saturating_sub(heap.available()))
            },
            Resource::AllocatorMemory => copy_of(&readings.allocator_used),
            _ => copy_of(&readings.os_used),
        }
    }

    /// How much of the resource is available to the process but not yet
    /// used?
    pub fn available(&self, readings: &Readings) -> (result: Reading)
        requires
            self.is_known(),
        ensures
            outcome(result) == self.available_from(readings@),
    {
        match self {
            Resource::Memory => {
                let os = match readings.os_snapshot() {
                    Ok(os) => os,
                    Err(error) => { return Err(error); },
                };
                let heap = match readings.allocator_snapshot() {
                    Ok(heap) => heap,
                    Err(error) => { return Err(error); },
                };
                Ok(os.available().saturating_add(heap.available()))
            },
            Resource::AllocatorMemory => {
                match readings.allocator_snapshot() {
                    Ok(heap) => Ok(heap.available()),
                    Err(error) => Err(error),
                }
            },
            _ => {
                match readings.os_snapshot() {
                    Ok(os) => Ok(os.available()),
                    Err(error) => Err(error),
                }
            },
        }
    }
}

} // verus!
