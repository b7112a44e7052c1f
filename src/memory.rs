//! Memory kinds, execution-context identity and the plain description of a
//! region that every copy and fill decision reads.
use vstd::prelude::*;

verus! {

/// The physical kind of a memory region; all dispatch branches on it.
#[derive(Clone, Copy, Debug, PartialEq, Eq, Structural)]
pub enum MemoryType {
    Host,
    Registered,
    PageLocked,
    Device,
    Array,
}

impl MemoryType {
    /// Kinds whose storage the host can address directly.
    pub open spec fn spec_is_host(self) -> bool {
        self is Host || self is Registered || self is PageLocked
    }

    pub fn is_host_addressable(&self) -> (r: bool)
        ensures
            r == self.spec_is_host(),
    {
        match self {
            MemoryType::Host | MemoryType::Registered | MemoryType::PageLocked => true,
            MemoryType::Device | MemoryType::Array => false,
        }
    }
}

/// Identity of a shared execution context. Two handles denote the same
/// context exactly when their identities are equal.
#[derive(Clone, Copy, Debug, PartialEq, Eq, Structural)]
pub struct Context {
    pub id: u64,
}

impl Context {
    pub fn new(id: u64) -> (r: Context)
        ensures
            r.id == id,
    {
        Context { id }
    }
}

/// What a copy or a fill reads of a region: its head address, its element
/// count, its kind and the context it is bound to, if any.
#[derive(Clone, Copy, Debug, PartialEq, Eq, Structural)]
pub struct RegionInfo {
    pub head: usize,
    pub num_elem: usize,
    pub kind: MemoryType,
    pub context: Option<Context>,
}

/// What a concrete region is, seen from its contracts.
pub struct RegionView {
    pub head: nat,
    pub num_elem: nat,
    pub context: Context,
    pub freed: bool,
}

/// A region's releasing failed: its free primitive reported an error. The
/// region is released all the same; this is only reported.
#[derive(Clone, Copy, Debug, PartialEq, Eq, Structural)]
pub struct FreeFailure {
    pub kind: MemoryType,
    pub head: usize,
}

/// What to report once a region's free primitive has run.
pub fn free_outcome(kind: MemoryType, head: usize, succeeded: bool) -> (r: Option<FreeFailure>)
    ensures
        succeeded ==> r is None,
        !succeeded ==> r == Some(FreeFailure { kind, head }),
{
    if succeeded {
        None
    } else {
        Some(FreeFailure { kind, head })
    }
}

} // verus!
