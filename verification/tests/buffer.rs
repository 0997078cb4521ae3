use molcv::buffer::{
    ensure, grow, place, BufferCache, BufferHandle, BufferSlot, BufferUsage, Placement,
};

#[test]
fn new_allocation_has_a_fifth_more_room_in_whole_words() {
    assert_eq!(grow(0), Some(0));
    assert_eq!(grow(1), Some(4));
    assert_eq!(grow(10), Some(12));
    assert_eq!(grow(11), Some(16));
    assert_eq!(grow(80), Some(96));
    assert_eq!(grow(160), Some(192));
    assert_eq!(grow(320), Some(384));
    assert_eq!(grow(1000), Some(1200));
    assert_eq!(grow(1001), Some(1204));
}

#[test]
fn new_allocation_matches_the_closed_form() {
    for required in 0u64..5000 {
        let capacity = grow(required).unwrap();
        assert_eq!(capacity, 4 * ((3 * required + 9) / 10));
        assert_eq!(capacity % 4, 0);
        assert!(capacity >= required);
        assert!(5 * capacity < 6 * required + 20);
    }
}

#[test]
fn capacity_beyond_sixty_four_bits_is_refused() {
    assert_eq!(grow(u64::MAX), None);
    assert_eq!(grow(u64::MAX / 6 * 5 + 5), None);
    let largest_served = (u64::MAX / 6) * 5;
    assert!(grow(largest_served).is_some());
}

#[test]
fn empty_slot_gets_a_new_buffer() {
    let mut slot = None;
    let served = ensure(&mut slot, 160, BufferUsage::Upload);
    let handle = BufferHandle { usage: BufferUsage::Upload, capacity: 192, size: 160 };
    assert_eq!(served, Some((Placement::Allocated, handle)));
    assert_eq!(slot, Some(handle));
}

#[test]
fn large_enough_buffer_is_kept_as_it_is() {
    let mut slot = Some(BufferHandle { usage: BufferUsage::Readback, capacity: 192, size: 160 });
    let served = ensure(&mut slot, 192, BufferUsage::Upload);
    let handle = BufferHandle { usage: BufferUsage::Readback, capacity: 192, size: 192 };
    assert_eq!(served, Some((Placement::Reused, handle)));
    assert_eq!(slot, Some(handle));
}

#[test]
fn too_small_buffer_is_replaced() {
    let mut slot = Some(BufferHandle { usage: BufferUsage::Upload, capacity: 192, size: 160 });
    let served = ensure(&mut slot, 193, BufferUsage::ComputeOutput);
    let handle = BufferHandle { usage: BufferUsage::ComputeOutput, capacity: 232, size: 193 };
    assert_eq!(served, Some((Placement::Allocated, handle)));
    assert_eq!(slot, Some(handle));
}

#[test]
fn slot_is_untouched_when_the_request_cannot_be_served() {
    let held = Some(BufferHandle { usage: BufferUsage::Upload, capacity: 8, size: 8 });
    let mut slot = held;
    assert_eq!(ensure(&mut slot, u64::MAX, BufferUsage::Upload), None);
    assert_eq!(slot, held);
}

#[test]
fn smaller_request_in_between_does_not_shrink_the_buffer() {
    let mut slot = None;
    let first = ensure(&mut slot, 160, BufferUsage::Upload).unwrap();
    assert_eq!(first.0, Placement::Allocated);
    assert_eq!(first.1.capacity, 192);
    let second = ensure(&mut slot, 80, BufferUsage::Upload).unwrap();
    assert_eq!(second.0, Placement::Reused);
    assert_eq!(second.1.capacity, 192);
    assert_eq!(second.1.size, 80);
    let third = ensure(&mut slot, 320, BufferUsage::Upload).unwrap();
    assert_eq!(third.0, Placement::Allocated);
    assert_eq!(third.1.capacity, 384);
    assert!(third.1.capacity >= 320);
}

#[test]
fn place_uses_the_given_capacity_for_a_new_buffer() {
    let mut slot = None;
    let fresh = grow(100).unwrap();
    let (placement, handle) = place(&mut slot, 100, fresh, BufferUsage::Readback);
    assert_eq!(placement, Placement::Allocated);
    assert_eq!(handle, BufferHandle { usage: BufferUsage::Readback, capacity: 120, size: 100 });
    let (again, kept) = place(&mut slot, 120, grow(120).unwrap(), BufferUsage::Readback);
    assert_eq!(again, Placement::Reused);
    assert_eq!(kept.capacity, 120);
}

#[test]
fn slots_have_fixed_usages_and_bindings() {
    assert_eq!(BufferSlot::Atoms.usage(), BufferUsage::Upload);
    assert_eq!(BufferSlot::Residues.usage(), BufferUsage::Upload);
    assert_eq!(BufferSlot::Settings.usage(), BufferUsage::Upload);
    assert_eq!(BufferSlot::Output.usage(), BufferUsage::ComputeOutput);
    assert_eq!(BufferSlot::Readback.usage(), BufferUsage::Readback);
    assert_eq!(BufferSlot::Atoms.binding(), Some(0));
    assert_eq!(BufferSlot::Residues.binding(), Some(1));
    assert_eq!(BufferSlot::Settings.binding(), Some(2));
    assert_eq!(BufferSlot::Output.binding(), Some(3));
    assert_eq!(BufferSlot::Readback.binding(), None);
}

#[test]
fn new_cache_holds_no_buffer() {
    let cache = BufferCache::empty();
    for slot in [
        BufferSlot::Atoms,
        BufferSlot::Residues,
        BufferSlot::Settings,
        BufferSlot::Output,
        BufferSlot::Readback,
    ] {
        assert_eq!(cache.slot(slot), None);
    }
}
