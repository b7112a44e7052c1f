use accel_memory::device::DeviceMemory;
use accel_memory::dispatch::{
    allocation_bytes, allocation_outcome, context_binding, contexts_agree, copy_violation,
    fill_path, plan_copy, plan_memset, transfer_for, AllocError, CopyError, CopyPlan,
    CopyViolation, FillPath, Transfer,
};
use accel_memory::elements::{copy_elements, copy_to_host, fill_elements, set_device};
use accel_memory::host::PageLockedMemory;
use accel_memory::memory::{free_outcome, Context, FreeFailure, MemoryType, RegionInfo};

fn region(head: usize, num_elem: usize, kind: MemoryType, ctx: Option<u64>) -> RegionInfo {
    RegionInfo { head, num_elem, kind, context: ctx.map(Context::new) }
}

const KINDS: [MemoryType; 5] = [
    MemoryType::Host,
    MemoryType::Registered,
    MemoryType::PageLocked,
    MemoryType::Device,
    MemoryType::Array,
];

#[test]
fn device_region_holds_twelve_elements() {
    let ctx = Context::new(1);
    let mem = DeviceMemory::<i32>::bind(ctx, 0x1000, 12);
    assert_eq!(mem.num_elem(), 12);
    assert_eq!(mem.head_addr(), 0x1000);
    assert_eq!(mem.memory_type(), MemoryType::Device);
    assert_eq!(mem.get_context(), ctx);
    assert_eq!(mem.try_get_context(), Some(ctx));
    assert_eq!(mem.info(), region(0x1000, 12, MemoryType::Device, Some(1)));
}

#[test]
fn page_locked_region_holds_twelve_elements() {
    let ctx = Context::new(1);
    let mem = PageLockedMemory::<i32>::bind(ctx, 0x2000, 12);
    assert_eq!(mem.num_elem(), 12);
    assert_eq!(mem.memory_type(), MemoryType::PageLocked);
    assert_eq!(mem.info(), region(0x2000, 12, MemoryType::PageLocked, Some(1)));
}

#[test]
fn failed_allocation_is_a_typed_error() {
    let ctx = Context::new(7);
    let failed = DeviceMemory::<i32>::from_allocation(ctx, 12, None);
    assert_eq!(failed.err(), Some(AllocError::AllocationFailed { bytes: 48, context: ctx }));
    let null = PageLockedMemory::<u16>::from_allocation(ctx, 3, Some(0));
    assert_eq!(null.err(), Some(AllocError::AllocationFailed { bytes: 6, context: ctx }));
    let ok = DeviceMemory::<i32>::from_allocation(ctx, 12, Some(0x7000)).ok().unwrap();
    assert_eq!(ok.num_elem(), 12);
    assert_eq!(ok.head_addr(), 0x7000);
    assert_eq!(ok.get_context(), ctx);
    let too_large = PageLockedMemory::<u64>::from_allocation(ctx, usize::MAX, Some(0x10));
    assert_eq!(too_large.err(), Some(AllocError::TooLarge));
    assert_eq!(allocation_outcome(8, ctx, Some(0x40)), Ok(0x40));
    assert_eq!(
        allocation_outcome(8, ctx, None),
        Err(AllocError::AllocationFailed { bytes: 8, context: ctx })
    );
}

#[test]
fn allocation_sizes_in_bytes() {
    assert_eq!(DeviceMemory::<i32>::allocation_bytes(12), Ok(48));
    assert_eq!(PageLockedMemory::<u8>::allocation_bytes(1), Ok(1));
    assert_eq!(PageLockedMemory::<f64>::allocation_bytes(1024), Ok(8192));
    assert_eq!(allocation_bytes(usize::MAX, 2), Err(AllocError::TooLarge));
    assert_eq!(allocation_bytes(usize::MAX, 1), Ok(usize::MAX));
}

#[test]
fn zeros_fill_every_element() {
    let mut data = vec![7i32, -1, 5, 9];
    fill_elements(&mut data, 0);
    assert_eq!(data, vec![0, 0, 0, 0]);
    let mut one = vec![42u64];
    fill_elements(&mut one, 0);
    assert_eq!(one, vec![0]);
}

#[test]
fn fill_twice_equals_fill_once() {
    let mut once = vec![1i16, 2, 3];
    fill_elements(&mut once, 0);
    let mut twice = vec![1i16, 2, 3];
    fill_elements(&mut twice, 0);
    fill_elements(&mut twice, 0);
    assert_eq!(once, twice);
}

#[test]
fn fill_path_by_width() {
    assert_eq!(fill_path(1), FillPath::Pattern8);
    assert_eq!(fill_path(2), FillPath::Pattern16);
    assert_eq!(fill_path(4), FillPath::Pattern32);
    assert_eq!(fill_path(8), FillPath::ElementWise);
    assert_eq!(fill_path(3), FillPath::ElementWise);
    assert_eq!(fill_path(16), FillPath::ElementWise);
}

#[test]
fn device_set_plans_follow_element_width() {
    let ctx = Context::new(3);
    assert_eq!(DeviceMemory::<u8>::bind(ctx, 8, 4).plan_set(), (ctx, FillPath::Pattern8));
    assert_eq!(DeviceMemory::<u16>::bind(ctx, 8, 4).plan_set(), (ctx, FillPath::Pattern16));
    assert_eq!(DeviceMemory::<f32>::bind(ctx, 8, 4).plan_set(), (ctx, FillPath::Pattern32));
    assert_eq!(DeviceMemory::<u64>::bind(ctx, 8, 4).plan_set(), (ctx, FillPath::ElementWise));
}

#[test]
fn memset_plans_bind_the_region_context() {
    assert_eq!(
        plan_memset(&region(16, 4, MemoryType::Device, Some(2)), 2),
        (Context::new(2), FillPath::Pattern16)
    );
    assert_eq!(
        plan_memset(&region(16, 4, MemoryType::Device, Some(3)), 8),
        (Context::new(3), FillPath::ElementWise)
    );
}

#[test]
fn fill_paths_by_element_width() {
    let info = region(64, 3, MemoryType::Device, Some(1));
    let mut wide = vec![5u64, 6, 7];
    assert_eq!(set_device(&info, &mut wide, 0u64), (Context::new(1), FillPath::ElementWise));
    assert_eq!(wide, vec![0, 0, 0]);
    let mut narrow = vec![5u32, 6, 7];
    assert_eq!(set_device(&info, &mut narrow, 0u32), (Context::new(1), FillPath::Pattern32));
    assert_eq!(narrow, vec![5, 6, 7]);
}

#[test]
fn length_mismatch_refused_for_every_kind_pair() {
    for dk in KINDS {
        for sk in KINDS {
            let dest = region(100, 4, dk, Some(1));
            let src = region(200, 5, sk, Some(1));
            assert_eq!(copy_violation(&dest, &src), Some(CopyViolation::LengthMismatch));
        }
    }
}

#[test]
fn aliased_copy_refused() {
    for dk in KINDS {
        for sk in KINDS {
            let dest = region(100, 4, dk, Some(1));
            let src = region(100, 4, sk, Some(1));
            assert_eq!(copy_violation(&dest, &src), Some(CopyViolation::Aliased));
        }
    }
}

#[test]
fn copy_across_contexts_refused() {
    let dest = region(100, 4, MemoryType::Device, Some(1));
    let src = region(200, 4, MemoryType::PageLocked, Some(2));
    assert_eq!(copy_violation(&dest, &src), Some(CopyViolation::ContextMismatch));
    let host_a = region(300, 4, MemoryType::Host, Some(1));
    let host_b = region(400, 4, MemoryType::Host, Some(2));
    assert_eq!(copy_violation(&host_a, &host_b), Some(CopyViolation::ContextMismatch));
    assert!(!contexts_agree(Some(Context::new(1)), Some(Context::new(2))));
}

#[test]
fn context_binding_choices() {
    let a = Some(Context::new(4));
    assert!(contexts_agree(a, a));
    assert!(contexts_agree(a, None));
    assert!(contexts_agree(None, None));
    assert_eq!(context_binding(a, a), a);
    assert_eq!(context_binding(a, None), a);
    assert_eq!(context_binding(None, a), a);
    assert_eq!(context_binding(None, None), None);
}

#[test]
fn transfers_by_kind() {
    assert_eq!(transfer_for(MemoryType::Host, MemoryType::PageLocked), Some(Transfer::HostToHost));
    assert_eq!(transfer_for(MemoryType::Device, MemoryType::Registered), Some(Transfer::HostToDevice));
    assert_eq!(transfer_for(MemoryType::PageLocked, MemoryType::Device), Some(Transfer::DeviceToHost));
    assert_eq!(transfer_for(MemoryType::Device, MemoryType::Device), Some(Transfer::DeviceToDevice));
    assert_eq!(transfer_for(MemoryType::Host, MemoryType::Array), None);
    assert_eq!(transfer_for(MemoryType::Array, MemoryType::Host), None);
}

#[test]
fn array_source_unsupported() {
    let dest = region(100, 4, MemoryType::Device, Some(1));
    let src = region(200, 4, MemoryType::Array, Some(1));
    assert_eq!(copy_violation(&dest, &src), Some(CopyViolation::UnsupportedKind));
    let host = region(300, 4, MemoryType::Host, None);
    assert_eq!(copy_violation(&host, &src), Some(CopyViolation::UnsupportedKind));
    assert_eq!(copy_violation(&dest, &host), None);
}

#[test]
fn copy_plan_counts_bytes_and_binds_context() {
    let dest = region(100, 6, MemoryType::Device, None);
    let src = region(200, 6, MemoryType::Host, Some(9));
    assert_eq!(
        plan_copy(&dest, &src, 8),
        Ok(CopyPlan { bind: Some(Context::new(9)), transfer: Transfer::HostToDevice, bytes: 48 })
    );
    let host_a = region(300, 2, MemoryType::Host, None);
    let host_b = region(400, 2, MemoryType::Registered, None);
    assert_eq!(
        plan_copy(&host_a, &host_b, 4),
        Ok(CopyPlan { bind: None, transfer: Transfer::HostToHost, bytes: 8 })
    );
    let huge_a = region(1, usize::MAX, MemoryType::Device, None);
    let huge_b = region(2, usize::MAX, MemoryType::Device, None);
    assert_eq!(plan_copy(&huge_a, &huge_b, 2), Err(CopyError::TooLarge));
}

#[test]
fn host_copy_moves_elements() {
    let src_info = region(100, 3, MemoryType::PageLocked, Some(1));
    let dest_info = region(200, 3, MemoryType::Host, None);
    let src = vec![1i32, 2, 3];
    let mut dest = vec![0i32; 3];
    let plan = copy_to_host(&dest_info, &mut dest, &src_info, &src);
    assert_eq!(plan, Ok(CopyPlan { bind: Some(Context::new(1)), transfer: Transfer::HostToHost, bytes: 12 }));
    assert_eq!(dest, vec![1, 2, 3]);
}

#[test]
fn device_source_left_to_transfer_primitive() {
    let src_info = region(100, 2, MemoryType::Device, Some(1));
    let dest_info = region(200, 2, MemoryType::PageLocked, Some(1));
    let src = vec![8i32, 9];
    let mut dest = vec![0i32; 2];
    let plan = copy_to_host(&dest_info, &mut dest, &src_info, &src);
    assert_eq!(plan, Ok(CopyPlan { bind: Some(Context::new(1)), transfer: Transfer::DeviceToHost, bytes: 8 }));
    assert_eq!(dest, vec![0, 0]);
}

#[test]
fn round_trip_through_device() {
    for n in [1usize, 1024] {
        let ctx = Context::new(5);
        let first = PageLockedMemory::<u32>::bind(ctx, 0x1000, n);
        let dev = DeviceMemory::<u32>::bind(ctx, 0x8000_0000, n);
        let second = PageLockedMemory::<u32>::bind(ctx, 0x4000_0000, n);
        let pattern: Vec<u32> = (0..n as u32).map(|i| i.wrapping_mul(2654435761)).collect();
        let mut device_data = vec![0u32; n];
        let up = dev.plan_copy_from(&first.info()).unwrap();
        assert_eq!(up, CopyPlan { bind: Some(ctx), transfer: Transfer::HostToDevice, bytes: 4 * n });
        // the driver's host-to-device transfer, on the region's managed view
        copy_elements(&mut device_data, &pattern);
        let mut back = vec![0u32; n];
        let down = second.plan_copy_from(&dev.info()).unwrap();
        assert_eq!(down, CopyPlan { bind: Some(ctx), transfer: Transfer::DeviceToHost, bytes: 4 * n });
        // the driver's device-to-host transfer
        copy_elements(&mut back, &device_data);
        assert_eq!(back, pattern);
    }
}

#[test]
fn release_runs_free_once() {
    let ctx = Context::new(2);
    let mut mem = DeviceMemory::<i32>::bind(ctx, 0x10, 4);
    assert_eq!(mem.release(), Some(ctx));
    assert_eq!(mem.release(), None);
    let mut pinned = PageLockedMemory::<i32>::bind(ctx, 0x20, 4);
    assert_eq!(pinned.release(), Some(ctx));
    assert_eq!(pinned.release(), None);
}

#[test]
fn failed_free_is_reported_not_fatal() {
    let ctx = Context::new(2);
    let mut mem = DeviceMemory::<i32>::bind(ctx, 0x10, 4);
    assert_eq!(mem.release(), Some(ctx));
    assert_eq!(
        mem.free_outcome(false),
        Some(FreeFailure { kind: MemoryType::Device, head: 0x10 })
    );
    assert_eq!(mem.free_outcome(true), None);
    let other = PageLockedMemory::<i32>::bind(ctx, 0x20, 4);
    assert_eq!(other.num_elem(), 4);
    assert_eq!(
        free_outcome(MemoryType::PageLocked, 0x20, false),
        Some(FreeFailure { kind: MemoryType::PageLocked, head: 0x20 })
    );
}

#[test]
fn end_to_end_device_region_of_twelve() {
    let ctx = Context::new(1);
    let mem = DeviceMemory::<i32>::bind(ctx, 0x9000, 12);
    let mut device_view = vec![0i32; 12];
    device_view[0] = 3;
    assert_eq!(mem.num_elem(), 12);
    let host_info = region(0x100, 12, MemoryType::Host, None);
    let mut host = vec![0i32; 12];
    let plan = copy_to_host(&host_info, &mut host, &mem.info(), &device_view).unwrap();
    assert_eq!(plan.transfer, Transfer::DeviceToHost);
    assert_eq!(plan.bind, Some(ctx));
    assert_eq!(plan.bytes, 48);
    // the driver's device-to-host transfer
    copy_elements(&mut host, &device_view);
    assert_eq!(host[0], 3);
}

#[test]
fn host_addressable_kinds() {
    assert!(MemoryType::Host.is_host_addressable());
    assert!(MemoryType::Registered.is_host_addressable());
    assert!(MemoryType::PageLocked.is_host_addressable());
    assert!(!MemoryType::Device.is_host_addressable());
    assert!(!MemoryType::Array.is_host_addressable());
}
