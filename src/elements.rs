//! Element-wise work on host-addressable storage: the fill fallback and the
//! host-to-host copy.
use vstd::prelude::*;
use crate::dispatch::{
    plan_copy, plan_memset, spec_copy_admissible, spec_fill_path, spec_fillable, spec_plan_copy,
    CopyError, CopyPlan, FillPath, Transfer,
};
use crate::memory::{Context, RegionInfo};

verus! {

/// `len` copies of `value`.
pub open spec fn filled<T>(len: nat, value: T) -> Seq<T> {
    Seq::new(len, |i: int| value)
}

/// Sets every element of `dest` to `value`.
pub fn fill_elements<T: Copy>(dest: &mut [T], value: T)
    ensures
        final(dest)@ == filled(old(dest)@.len(), value),
{
    let n = dest.len();
    let mut i: usize = 0;
    while i < n
        invariant
            n == dest@.len(),
            n == old(dest)@.len(),
            i <= n,
            forall|j: int| 0 <= j < i ==> dest@[j] == value,
        decreases n - i,
    {
        dest[i] = value;
        i = i + 1;
    }
    assert(dest@ =~= filled(n as nat, value));
}

/// Copies `src` into `dest`, element for element; both hold the same count.
pub fn copy_elements<T: Copy>(dest: &mut [T], src: &[T])
    requires
        old(dest)@.len() == src@.len(),
    ensures
        final(dest)@ == src@,
{
    let n = src.len();
    let mut i: usize = 0;
    while i < n
        invariant
            n == dest@.len(),
            n == src@.len(),
            i <= n,
            forall|j: int| 0 <= j < i ==> dest@[j] == src@[j],
        decreases n - i,
    {
        dest[i] = src[i];
        i = i + 1;
    }
    assert(dest@ =~= src@);
}

/// Filling twice with one value leaves what filling once leaves.
pub proof fn lemma_fill_idempotent<T>(s: Seq<T>, value: T)
    ensures
        filled(filled(s.len(), value).len(), value) == filled(s.len(), value),
{
    assert(filled(filled(s.len(), value).len(), value) =~= filled(s.len(), value));
}

/// A fill leaves the element count as it was and every element equal to
/// the value; with the zero value this is a zero-initialised region.
pub proof fn lemma_fill_contents<T>(s: Seq<T>, value: T)
    ensures
        filled(s.len(), value).len() == s.len(),
        forall|i: int| 0 <= i < s.len() ==> #[trigger] filled(s.len(), value)[i] == value,
{
}

/// Copies `src` into host-addressable storage `dest`, each given with its
/// description; the copy must keep the contract. The copy is planned first;
/// a host-to-host copy is then done here, element for element. A copy from
/// device memory is handed back as its plan, for the caller to run the
/// transfer primitive, and `dest` is left as it was.
pub fn copy_to_host<T: Copy>(
    dest_info: &RegionInfo,
    dest: &mut [T],
    src_info: &RegionInfo,
    src: &[T],
) -> (r: Result<CopyPlan, CopyError>)
    requires
        dest_info.kind.spec_is_host(),
        spec_copy_admissible(*dest_info, *src_info),
        old(dest)@.len() == dest_info.num_elem,
        src@.len() == src_info.num_elem,
    ensures
        r == spec_plan_copy(*dest_info, *src_info, vstd::layout::size_of::<T>()),
        (r is Ok && src_info.kind.spec_is_host()) ==> final(dest)@ == src@,
        !(r is Ok && src_info.kind.spec_is_host()) ==> final(dest)@ == old(dest)@,
{
    let r = plan_copy(dest_info, src_info, core::mem::size_of::<T>());
    if let Ok(p) = r {
        if let Transfer::HostToHost = p.transfer {
            copy_elements(dest, src);
        }
    }
    r
}

/// Fills device memory `dest`, given with its description, with `value`.
/// The fill is planned first; on the element-wise path it is done here
/// through the slice view. On a bulk-pattern path the plan is handed back
/// for the caller to run the pattern primitive, and `dest` is left as it was.
pub fn set_device<T: Copy>(dest_info: &RegionInfo, dest: &mut [T], value: T) -> (r: (
    Context,
    FillPath,
))
    requires
        spec_fillable(*dest_info),
        old(dest)@.len() == dest_info.num_elem,
    ensures
        r == (dest_info.context->0, spec_fill_path(vstd::layout::size_of::<T>())),
        r.1 is ElementWise ==> final(dest)@ == filled(old(dest)@.len(), value),
        !(r.1 is ElementWise) ==> final(dest)@ == old(dest)@,
{
    let r = plan_memset(dest_info, core::mem::size_of::<T>());
    if let FillPath::ElementWise = r.1 {
        fill_elements(dest, value);
    }
    r
}

} // verus!
