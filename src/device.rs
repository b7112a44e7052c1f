//! Memory resident on the accelerator, mapped for managed access.
use vstd::prelude::*;
use std::marker::PhantomData;
use crate::dispatch::{
    allocation_bytes, allocation_outcome, plan_copy, plan_memset, spec_allocation_bytes,
    spec_allocated_region, spec_copy_admissible, spec_fill_path, spec_plan_copy, AllocError,
    CopyError, CopyPlan, FillPath,
};
use crate::memory::{free_outcome, Context, FreeFailure, MemoryType, RegionInfo, RegionView};

verus! {

/// Memory allocated on the device: `size` elements of `T` from the head
/// address `head`, bound to one execution context. The head address and the
/// count are fixed for the region's life; the region is released once.
pub struct DeviceMemory<T> {
    head: usize,
    size: usize,
    context: Context,
    freed: bool,
    phantom: PhantomData<T>,
}

impl<T> View for DeviceMemory<T> {
    type V = RegionView;

    closed spec fn view(&self) -> RegionView {
        RegionView {
            head: self.head as nat,
            num_elem: self.size as nat,
            context: self.context,
            freed: self.freed,
        }
    }
}

impl<T> DeviceMemory<T> {
    /// Every region holds at least one element from a non-null head
    /// address, both within `usize`.
    #[verifier::type_invariant]
    spec fn inv(&self) -> bool {
        self.size > 0 && self.head != 0
    }

    /// What the invariant says of the view; every method that reads the
    /// region ensures it.
    pub open spec fn wf(&self) -> bool {
        &&& 0 < self@.num_elem <= usize::MAX
        &&& 0 < self@.head <= usize::MAX
    }

    /// What copy and fill decisions read of this region.
    pub open spec fn spec_info(&self) -> RegionInfo {
        RegionInfo {
            head: self@.head as usize,
            num_elem: self@.num_elem as usize,
            kind: MemoryType::Device,
            context: Some(self@.context),
        }
    }

    /// The bytes to allocate for `size` elements; zero elements is no request.
    pub fn allocation_bytes(size: usize) -> (r: Result<usize, AllocError>)
        requires
            size > 0,
        ensures
            r == spec_allocation_bytes(size as nat, vstd::layout::size_of::<T>()),
    {
        allocation_bytes(size, core::mem::size_of::<T>())
    }

    /// Takes the runtime's answer to a request for `size` elements under
    /// `context`: the head address it allocated, or `None` when it failed.
    /// Gives the region, or the typed failure with the bytes and context.
    pub fn from_allocation(context: Context, size: usize, head: Option<usize>) -> (r: Result<Self, AllocError>)
        requires
            size > 0,
        ensures
            r is Ok <==> spec_allocated_region(size as nat, vstd::layout::size_of::<T>(), context, head) is Ok,
            r matches Ok(m) ==> m@ == spec_allocated_region(size as nat, vstd::layout::size_of::<T>(), context, head)->Ok_0,
            r matches Err(e) ==> e == spec_allocated_region(size as nat, vstd::layout::size_of::<T>(), context, head)->Err_0,
    {
        match Self::allocation_bytes(size) {
            Err(e) => Err(e),
            Ok(bytes) => match allocation_outcome(bytes, context, head) {
                Err(e) => Err(e),
                Ok(h) => Ok(Self::bind(context, h, size)),
            },
        }
    }

    /// Takes ownership of `size` elements allocated at `head` under `context`.
    pub fn bind(context: Context, head: usize, size: usize) -> (r: Self)
        requires
            size > 0,
            head != 0,
        ensures
            r@ == (RegionView { head: head as nat, num_elem: size as nat, context, freed: false }),
            r.wf(),
    {
        DeviceMemory { head, size, context, freed: false, phantom: PhantomData }
    }

    pub fn head_addr(&self) -> (r: usize)
        ensures
            r == self@.head,
            r != 0,
            self.wf(),
    {
        proof {
            use_type_invariant(self);
        }
        self.head
    }

    pub fn num_elem(&self) -> (r: usize)
        ensures
            r == self@.num_elem,
            r > 0,
            self.wf(),
    {
        proof {
            use_type_invariant(self);
        }
        self.size
    }

    pub fn memory_type(&self) -> (r: MemoryType)
        ensures
            r == MemoryType::Device,
    {
        MemoryType::Device
    }

    pub fn get_context(&self) -> (r: Context)
        ensures
            r == self@.context,
    {
        self.context
    }

    pub fn try_get_context(&self) -> (r: Option<Context>)
        ensures
            r == Some(self@.context),
    {
        Some(self.context)
    }

    pub fn info(&self) -> (r: RegionInfo)
        ensures
            r == self.spec_info(),
            self.wf(),
    {
        proof {
            use_type_invariant(self);
        }
        RegionInfo {
            head: self.head,
            num_elem: self.size,
            kind: MemoryType::Device,
            context: Some(self.context),
        }
    }

    /// Plans a copy of `src` into this region; the copy must keep the contract.
    pub fn plan_copy_from(&self, src: &RegionInfo) -> (r: Result<CopyPlan, CopyError>)
        requires
            spec_copy_admissible(self.spec_info(), *src),
        ensures
            r == spec_plan_copy(self.spec_info(), *src, vstd::layout::size_of::<T>()),
    {
        plan_copy(&self.info(), src, core::mem::size_of::<T>())
    }

    /// Plans filling this region with one value: its own context is bound,
    /// and the path follows the element width.
    pub fn plan_set(&self) -> (r: (Context, FillPath))
        ensures
            r == (self@.context, spec_fill_path(vstd::layout::size_of::<T>())),
    {
        plan_memset(&self.info(), core::mem::size_of::<T>())
    }

    /// Starts releasing the region. Gives the context under which the free
    /// primitive must run, or `None` when the region was released already.
    pub fn release(&mut self) -> (r: Option<Context>)
        ensures
            final(self)@ == (RegionView { freed: true, ..old(self)@ }),
            final(self).wf(),
            old(self)@.freed ==> r is None,
            !old(self)@.freed ==> r == Some(old(self)@.context),
    {
        proof {
            use_type_invariant(&*self);
        }
        if self.freed {
            None
        } else {
            self.freed = true;
            Some(self.context)
        }
    }

    /// What to report once the free primitive has run.
    pub fn free_outcome(&self, succeeded: bool) -> (r: Option<FreeFailure>)
        ensures
            succeeded ==> r is None,
            !succeeded ==> r == Some(FreeFailure { kind: MemoryType::Device, head: self@.head as usize }),
    {
        proof {
            use_type_invariant(self);
        }
        free_outcome(MemoryType::Device, self.head, succeeded)
    }
}

} // verus!
