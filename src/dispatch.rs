//! Decisions behind allocation, zero-fill and copy: which requests break the
//! layer's contract, which context is bound, and which transfer primitive
//! runs.
//!
//! Contract violations (a zero-sized request, an aliased or mismatched copy,
//! a fill of memory that is not device memory) are preconditions here, never
//! ordinary errors. A caller that cannot know them in advance tests them with
//! `copy_violation` and stops when one is found.
use vstd::prelude::*;
use crate::memory::{Context, MemoryType, RegionInfo, RegionView};

verus! {

/// Why an allocation fails. A zero-sized request is no such failure: it is
/// excluded by precondition.
#[derive(Clone, Copy, Debug, PartialEq, Eq, Structural)]
pub enum AllocError {
    /// The byte size of the region does not fit in `usize`.
    TooLarge,
    /// The runtime could not allocate `bytes` bytes under `context`.
    AllocationFailed { bytes: usize, context: Context },
}

/// Number of bytes to allocate for `num_elem` elements of `elem_bytes` bytes.
pub open spec fn spec_allocation_bytes(num_elem: nat, elem_bytes: nat) -> Result<usize, AllocError> {
    if num_elem * elem_bytes > usize::MAX {
        Err(AllocError::TooLarge)
    } else {
        Ok((num_elem * elem_bytes) as usize)
    }
}

/// The size in bytes of a request for `num_elem` elements; the request
/// must be for at least one element.
pub fn allocation_bytes(num_elem: usize, elem_bytes: usize) -> (r: Result<usize, AllocError>)
    requires
        num_elem > 0,
    ensures
        r == spec_allocation_bytes(num_elem as nat, elem_bytes as nat),
{
    match num_elem.checked_mul(elem_bytes) {
        Some(b) => Ok(b),
        None => Err(AllocError::TooLarge),
    }
}

/// The outcome of an allocation of `bytes` bytes under `context`: the head
/// address that the runtime returned, or a failure naming the request. A
/// null address is a failure.
pub open spec fn spec_allocation_outcome(bytes: usize, context: Context, head: Option<usize>) -> Result<usize, AllocError> {
    match head {
        Some(h) => if h != 0 {
            Ok(h)
        } else {
            Err(AllocError::AllocationFailed { bytes, context })
        },
        None => Err(AllocError::AllocationFailed { bytes, context }),
    }
}

pub fn allocation_outcome(bytes: usize, context: Context, head: Option<usize>) -> (r: Result<usize, AllocError>)
    ensures
        r == spec_allocation_outcome(bytes, context, head),
        r matches Ok(h) ==> h != 0,
{
    match head {
        Some(h) => if h != 0 {
            Ok(h)
        } else {
            Err(AllocError::AllocationFailed { bytes, context })
        },
        None => Err(AllocError::AllocationFailed { bytes, context }),
    }
}

/// The region that an allocation of `num_elem` elements of `elem_bytes`
/// bytes under `context` yields, given the head address the runtime
/// returned, or the failure.
pub open spec fn spec_allocated_region(
    num_elem: nat,
    elem_bytes: nat,
    context: Context,
    head: Option<usize>,
) -> Result<RegionView, AllocError> {
    match spec_allocation_bytes(num_elem, elem_bytes) {
        Err(e) => Err(e),
        Ok(b) => match spec_allocation_outcome(b, context, head) {
            Err(e) => Err(e),
            Ok(h) => Ok(RegionView { head: h as nat, num_elem, context, freed: false }),
        },
    }
}

/// How a device region is zero-filled.
#[derive(Clone, Copy, Debug, PartialEq, Eq, Structural)]
pub enum FillPath {
    /// One bulk call repeating a 1-byte pattern.
    Pattern8,
    /// One bulk call repeating a 2-byte little-endian pattern.
    Pattern16,
    /// One bulk call repeating a 4-byte little-endian pattern.
    Pattern32,
    /// Element by element through the region's slice view.
    ElementWise,
}

pub open spec fn spec_fill_path(elem_bytes: nat) -> FillPath {
    if elem_bytes == 1 {
        FillPath::Pattern8
    } else if elem_bytes == 2 {
        FillPath::Pattern16
    } else if elem_bytes == 4 {
        FillPath::Pattern32
    } else {
        FillPath::ElementWise
    }
}

/// The fill path for elements of `elem_bytes` bytes: a bulk pattern for
/// widths 1, 2 and 4, element by element otherwise.
pub fn fill_path(elem_bytes: usize) -> (r: FillPath)
    ensures
        r == spec_fill_path(elem_bytes as nat),
{
    match elem_bytes {
        1 => FillPath::Pattern8,
        2 => FillPath::Pattern16,
        4 => FillPath::Pattern32,
        _ => FillPath::ElementWise,
    }
}

/// A region that a device fill accepts: device memory bound to a context.
pub open spec fn spec_fillable(dest: RegionInfo) -> bool {
    dest.kind is Device && dest.context is Some
}

/// Plans the zero-fill of a device region: the context to bind and the
/// fill path.
pub fn plan_memset(dest: &RegionInfo, elem_bytes: usize) -> (r: (Context, FillPath))
    requires
        spec_fillable(*dest),
    ensures
        r == (dest.context->0, spec_fill_path(elem_bytes as nat)),
{
    (dest.context.unwrap(), fill_path(elem_bytes))
}

/// The transfer primitive of a copy.
#[derive(Clone, Copy, Debug, PartialEq, Eq, Structural)]
pub enum Transfer {
    /// Direct element-wise copy between host-addressable slices.
    HostToHost,
    HostToDevice,
    DeviceToHost,
    DeviceToDevice,
}

/// How a copy breaks the layer's contract.
#[derive(Clone, Copy, Debug, PartialEq, Eq, Structural)]
pub enum CopyViolation {
    /// Source and destination have the same head address.
    Aliased,
    /// Source and destination hold different element counts.
    LengthMismatch,
    /// Source and destination are bound to different contexts.
    ContextMismatch,
    /// A side is opaque array storage, which has no transfer here.
    UnsupportedKind,
}

/// Why an admissible copy still cannot be planned.
#[derive(Clone, Copy, Debug, PartialEq, Eq, Structural)]
pub enum CopyError {
    /// The byte size of the transfer does not fit in `usize`.
    TooLarge,
}

/// A copy that passed every check: the context bound while it runs, the
/// primitive, and the number of bytes it moves.
#[derive(Clone, Copy, Debug, PartialEq, Eq, Structural)]
pub struct CopyPlan {
    pub bind: Option<Context>,
    pub transfer: Transfer,
    pub bytes: usize,
}

/// The primitive chosen by the source's kind, then the destination's.
pub open spec fn spec_transfer(dest: MemoryType, src: MemoryType) -> Option<Transfer> {
    if src.spec_is_host() && dest.spec_is_host() {
        Some(Transfer::HostToHost)
    } else if src.spec_is_host() && dest is Device {
        Some(Transfer::HostToDevice)
    } else if src is Device && dest.spec_is_host() {
        Some(Transfer::DeviceToHost)
    } else if src is Device && dest is Device {
        Some(Transfer::DeviceToDevice)
    } else {
        None
    }
}

/// Two context bindings that may meet in one copy: equal where both exist.
pub open spec fn spec_contexts_agree(dest: Option<Context>, src: Option<Context>) -> bool {
    (dest is Some && src is Some) ==> dest == src
}

/// The context bound during a copy: the one both sides share, or the one
/// side's context, or none.
pub open spec fn spec_binding(dest: Option<Context>, src: Option<Context>) -> Option<Context> {
    match dest {
        Some(d) => Some(d),
        None => src,
    }
}

/// The first way in which a copy of `src` into `dest` breaks the contract,
/// checked in order: aliasing, element counts, contexts, kinds.
pub open spec fn spec_copy_violation(dest: RegionInfo, src: RegionInfo) -> Option<CopyViolation> {
    if dest.head == src.head {
        Some(CopyViolation::Aliased)
    } else if dest.num_elem != src.num_elem {
        Some(CopyViolation::LengthMismatch)
    } else if !spec_contexts_agree(dest.context, src.context) {
        Some(CopyViolation::ContextMismatch)
    } else if spec_transfer(dest.kind, src.kind) is None {
        Some(CopyViolation::UnsupportedKind)
    } else {
        None
    }
}

/// A copy of `src` into `dest` that keeps the contract: distinct heads,
/// equal counts, agreeing contexts and a supported pair of kinds.
pub open spec fn spec_copy_admissible(dest: RegionInfo, src: RegionInfo) -> bool {
    spec_copy_violation(dest, src) is None
}

pub open spec fn spec_plan_copy(dest: RegionInfo, src: RegionInfo, elem_bytes: nat) -> Result<CopyPlan, CopyError> {
    if dest.num_elem * elem_bytes > usize::MAX {
        Err(CopyError::TooLarge)
    } else {
        Ok(CopyPlan {
            bind: spec_binding(dest.context, src.context),
            transfer: spec_transfer(dest.kind, src.kind)->0,
            bytes: (dest.num_elem * elem_bytes) as usize,
        })
    }
}

pub fn contexts_agree(dest: Option<Context>, src: Option<Context>) -> (r: bool)
    ensures
        r == spec_contexts_agree(dest, src),
{
    match (dest, src) {
        (Some(d), Some(s)) => d == s,
        _ => true,
    }
}

/// The context to bind for a copy whose two sides agree on it.
pub fn context_binding(dest: Option<Context>, src: Option<Context>) -> (r: Option<Context>)
    requires
        spec_contexts_agree(dest, src),
    ensures
        r == spec_binding(dest, src),
        dest is Some ==> r == dest,
        src is Some ==> r == src,
{
    match dest {
        Some(d) => Some(d),
        None => src,
    }
}

pub fn transfer_for(dest: MemoryType, src: MemoryType) -> (r: Option<Transfer>)
    ensures
        r == spec_transfer(dest, src),
{
    match src {
        MemoryType::Host | MemoryType::Registered | MemoryType::PageLocked => match dest {
            MemoryType::Host | MemoryType::Registered | MemoryType::PageLocked => Some(
                Transfer::HostToHost,
            ),
            MemoryType::Device => Some(Transfer::HostToDevice),
            MemoryType::Array => None,
        },
        MemoryType::Device => match dest {
            MemoryType::Host | MemoryType::Registered | MemoryType::PageLocked => Some(
                Transfer::DeviceToHost,
            ),
            MemoryType::Device => Some(Transfer::DeviceToDevice),
            MemoryType::Array => None,
        },
        MemoryType::Array => None,
    }
}

/// Tests a copy of `src` into `dest` against the contract, before it is
/// planned: `None` exactly when the copy is admissible.
pub fn copy_violation(dest: &RegionInfo, src: &RegionInfo) -> (r: Option<CopyViolation>)
    ensures
        r == spec_copy_violation(*dest, *src),
        r is None <==> spec_copy_admissible(*dest, *src),
{
    if dest.head == src.head {
        Some(CopyViolation::Aliased)
    } else if dest.num_elem != src.num_elem {
        Some(CopyViolation::LengthMismatch)
    } else if !contexts_agree(dest.context, src.context) {
        Some(CopyViolation::ContextMismatch)
    } else if transfer_for(dest.kind, src.kind).is_none() {
        Some(CopyViolation::UnsupportedKind)
    } else {
        None
    }
}

/// Plans an admissible copy of `src` into `dest` for elements of
/// `elem_bytes` bytes: the context bound, the primitive, the bytes moved.
pub fn plan_copy(dest: &RegionInfo, src: &RegionInfo, elem_bytes: usize) -> (r: Result<CopyPlan, CopyError>)
    requires
        spec_copy_admissible(*dest, *src),
    ensures
        r == spec_plan_copy(*dest, *src, elem_bytes as nat),
        r is Ok ==> spec_transfer(dest.kind, src.kind) == Some(r->Ok_0.transfer),
{
    let bind = context_binding(dest.context, src.context);
    let transfer = transfer_for(dest.kind, src.kind).unwrap();
    match dest.num_elem.checked_mul(elem_bytes) {
        Some(bytes) => Ok(CopyPlan { bind, transfer, bytes }),
        None => Err(CopyError::TooLarge),
    }
}

/// A copy between regions of different element counts breaks the contract,
/// for every pair of kinds and contexts; with distinct heads it is reported
/// as a length mismatch.
pub proof fn lemma_copy_rejects_length_mismatch(dest: RegionInfo, src: RegionInfo)
    requires
        dest.num_elem != src.num_elem,
    ensures
        !spec_copy_admissible(dest, src),
        dest.head != src.head ==> spec_copy_violation(dest, src) == Some(
            CopyViolation::LengthMismatch,
        ),
{
}

/// A copy of a region onto itself (same head address) breaks the contract.
pub proof fn lemma_copy_rejects_alias(dest: RegionInfo, src: RegionInfo)
    requires
        dest.head == src.head,
    ensures
        !spec_copy_admissible(dest, src),
        spec_copy_violation(dest, src) == Some(CopyViolation::Aliased),
{
}

/// A copy from array storage breaks the contract, whatever the destination.
pub proof fn lemma_copy_rejects_array_source(dest: RegionInfo, src: RegionInfo)
    requires
        src.kind is Array,
    ensures
        !spec_copy_admissible(dest, src),
{
}

/// Two regions bound to different contexts are never copied into each other.
pub proof fn lemma_copy_rejects_foreign_context(dest: RegionInfo, src: RegionInfo)
    requires
        dest.context is Some,
        src.context is Some,
        dest.context != src.context,
    ensures
        !spec_copy_admissible(dest, src),
{
}

/// From a page-locked region into a device region and back into a second
/// page-locked region, under one context: both copies are admissible, the
/// first as a host-to-device transfer and the second as a device-to-host
/// transfer, each moving every byte of the regions.
pub proof fn lemma_round_trip_plans(
    first: RegionInfo,
    dev: RegionInfo,
    second: RegionInfo,
    ctx: Context,
    elem_bytes: nat,
)
    requires
        first.kind is PageLocked,
        dev.kind is Device,
        second.kind is PageLocked,
        first.num_elem == dev.num_elem,
        second.num_elem == dev.num_elem,
        first.head != dev.head,
        second.head != dev.head,
        first.context == Some(ctx),
        dev.context == Some(ctx),
        second.context == Some(ctx),
        dev.num_elem * elem_bytes <= usize::MAX,
    ensures
        spec_copy_admissible(dev, first),
        spec_copy_admissible(second, dev),
        spec_plan_copy(dev, first, elem_bytes) == Ok::<CopyPlan, CopyError>(
            CopyPlan {
                bind: Some(ctx),
                transfer: Transfer::HostToDevice,
                bytes: (dev.num_elem * elem_bytes) as usize,
            },
        ),
        spec_plan_copy(second, dev, elem_bytes) == Ok::<CopyPlan, CopyError>(
            CopyPlan {
                bind: Some(ctx),
                transfer: Transfer::DeviceToHost,
                bytes: (dev.num_elem * elem_bytes) as usize,
            },
        ),
{
}

/// An admissible copy runs under the context that each side is bound to,
/// and under none when neither side is bound to one.
pub proof fn lemma_copy_binds_owning_context(dest: RegionInfo, src: RegionInfo, elem_bytes: nat)
    requires
        spec_copy_admissible(dest, src),
        spec_plan_copy(dest, src, elem_bytes) is Ok,
    ensures
        dest.context is Some ==> spec_plan_copy(dest, src, elem_bytes)->Ok_0.bind == dest.context,
        src.context is Some ==> spec_plan_copy(dest, src, elem_bytes)->Ok_0.bind == src.context,
        (dest.context is None && src.context is None) ==> spec_plan_copy(
            dest,
            src,
            elem_bytes,
        )->Ok_0.bind is None,
{
}

} // verus!
