use vk_setup::device::{rank_of_kind, DeviceKind};
use vk_setup::sizing::{
    buffer_holds_rgba, desired_swapchain_images, dispatch_size, rgba_byte_len, workgroup_count,
    zeroed_bytes, DispatchSize,
};

#[test]
fn kinds_rank_from_discrete_to_other() {
    assert_eq!(rank_of_kind(DeviceKind::DiscreteGpu), 0);
    assert_eq!(rank_of_kind(DeviceKind::IntegratedGpu), 1);
    assert_eq!(rank_of_kind(DeviceKind::VirtualGpu), 2);
    assert_eq!(rank_of_kind(DeviceKind::Cpu), 3);
    assert_eq!(rank_of_kind(DeviceKind::Other), 4);
}

#[test]
fn swapchain_asks_for_one_image_over_the_minimum() {
    assert_eq!(desired_swapchain_images(2), 3);
    assert_eq!(desired_swapchain_images(0), 1);
}

#[test]
fn demo_image_needs_128_workgroups_per_axis() {
    assert_eq!(workgroup_count(1024, 8), 128);
    assert_eq!(
        dispatch_size(1024, 1024, 8),
        DispatchSize { x: 128, y: 128, z: 1 }
    );
}

#[test]
fn degenerate_extents_dispatch_nothing() {
    assert_eq!(workgroup_count(0, 8), 0);
    assert_eq!(
        dispatch_size(0, 16, 16),
        DispatchSize { x: 0, y: 1, z: 1 }
    );
}

#[test]
fn demo_image_is_four_mebibytes() {
    assert_eq!(rgba_byte_len(1024, 1024), Some(4 * 1024 * 1024));
    assert_eq!(rgba_byte_len(0, 1024), Some(0));
    assert_eq!(rgba_byte_len(1, 1), Some(4));
}

#[test]
fn oversized_image_has_no_byte_length() {
    assert_eq!(rgba_byte_len(u32::MAX, u32::MAX), None);
}

#[test]
fn staging_buffer_is_zero_filled() {
    let buf = zeroed_bytes(4096);
    assert_eq!(buf.len(), 4096);
    assert!(buf.iter().all(|b| *b == 0));
    assert_eq!(zeroed_bytes(0).len(), 0);
}

#[test]
fn readback_buffer_must_cover_the_image() {
    assert!(buffer_holds_rgba(4 * 1024 * 1024, 1024, 1024));
    assert!(buffer_holds_rgba(4 * 1024 * 1024 + 1, 1024, 1024));
    assert!(!buffer_holds_rgba(4 * 1024 * 1024 - 1, 1024, 1024));
    assert!(!buffer_holds_rgba(u64::MAX, u32::MAX, u32::MAX));
}
