//! The protocol engine: exchanges, response classification, decoding, and
//! the end-to-end command scenarios.

use virtio_gpu::config::ConfigManager;
use virtio_gpu::device::{
    fill_test_pattern, GPUDevice, VirtioDeviceError, CONTROL_QUEUE_INDEX, CURSOR_QUEUE_INDEX,
    RESOURCE_ID_2D,
};
use virtio_gpu::header::{
    VirtioGpuCtrlHdr, VirtioGpuCtxCreate, VirtioGpuCursorPos, VirtioGpuDisplayOne,
    VirtioGpuRect, VirtioGpuRespDisplayInfo, VirtioGpuRespEDID, VirtioGpuRespMapInfo,
    VirtioGpuMemEntry, VirtioGpuResourceAttachBacking, VirtioGpuResourceCreate2d, VirtioGpuResourceMapBlob,
    VirtioGpuResourceUnmapBlob, VirtioGpuUpdateCursor, ATTACH_RESOURCE_LEN,
};
use virtio_gpu::queue::ChannelState;
use virtio_gpu::zeroed_bytes;

fn device() -> GPUDevice {
    GPUDevice::new(ConfigManager::new(zeroed_bytes(16)))
}

fn response_header(type_: u32) -> Vec<u8> {
    VirtioGpuCtrlHdr { type_, flags: 0, fence_id: 0, ctx_id: 0, ring_idx: 0 }.to_bytes()
}

/// Runs the device's side of an exchange on the control channel and
/// completes it with a bare-header response of the given type code.
fn finish_ctrl(dev: &mut GPUDevice, code: u32) -> Result<u32, VirtioDeviceError> {
    if dev.control_channel.should_notify() {
        dev.control_channel.notify();
    }
    dev.control_channel.deliver_completion();
    assert!(dev.control_channel.can_pop());
    dev.complete_ctrl_nodata(&response_header(code))
}

#[test]
fn config_is_read_field_by_field() {
    let mut window = Vec::new();
    window.extend_from_slice(&7u32.to_le_bytes());
    window.extend_from_slice(&1u32.to_le_bytes());
    window.extend_from_slice(&2u32.to_le_bytes());
    window.extend_from_slice(&3u32.to_le_bytes());
    let config = ConfigManager::new(window).read_config();
    assert_eq!(config.events_read, 7);
    assert_eq!(config.events_clear, 1);
    assert_eq!(config.num_scanouts, 2);
    assert_eq!(config.num_capsets, 3);
}

#[test]
fn negotiate_features_passes_everything_through() {
    assert_eq!(GPUDevice::negotiate_features(0), 0);
    assert_eq!(GPUDevice::negotiate_features(0x1F), 0x1F);
    assert_eq!(GPUDevice::negotiate_features(u64::MAX), u64::MAX);
}

#[test]
fn exchange_pops_its_own_token() {
    let mut dev = device();
    let t1 = dev.get_display_info().unwrap();
    dev.control_channel.deliver_completion();
    let p1 = dev.control_channel.pop_used();
    assert_eq!(p1, t1);
    let t2 = dev.get_display_info().unwrap();
    dev.control_channel.deliver_completion();
    let p2 = dev.control_channel.pop_used();
    assert_eq!(p2, t2);
    assert_ne!(p1, p2);
}

#[test]
fn busy_channel_refuses_a_second_submission() {
    let mut dev = device();
    dev.create_resource(64, 64).unwrap();
    assert_eq!(dev.create_resource(64, 64), Err(VirtioDeviceError::QueueError));
    assert_eq!(dev.control_channel.state, ChannelState::Submitted);
}

#[test]
fn cursor_and_control_channels_are_independent() {
    let mut dev = device();
    dev.create_resource(64, 64).unwrap();
    let t = dev.move_cursor(0, 10, 20).unwrap();
    assert_eq!(t, 0);
    assert_eq!(dev.cursor_channel.queue_index, CURSOR_QUEUE_INDEX);
    assert_eq!(dev.control_channel.queue_index, CONTROL_QUEUE_INDEX);
    dev.cursor_channel.deliver_completion();
    let r = dev.complete_cursor_nodata(&response_header(0x1100));
    assert_eq!(r, Ok(0x1100));
    assert_eq!(dev.control_channel.state, ChannelState::Submitted);
}

#[test]
fn error_codes_are_passed_through() {
    for code in [0x1200u32, 0x1201, 0x1202, 0x1203, 0x1204, 0x1205] {
        let mut dev = device();
        dev.create_resource(64, 64).unwrap();
        let r = finish_ctrl(&mut dev, code);
        assert_eq!(r, Err(VirtioDeviceError::DeviceError(code)));
    }
}

#[test]
fn unknown_codes_are_decode_errors() {
    for code in [0u32, 0x0100, 0x0208, 0x0301, 0x9999, 0x1107, 0x1206, 0xFFFF_FFFF] {
        let mut dev = device();
        dev.create_resource(64, 64).unwrap();
        let r = finish_ctrl(&mut dev, code);
        assert_eq!(r, Err(VirtioDeviceError::DecodeError));
    }
}

#[test]
fn recognized_but_unexpected_codes_are_reported_with_their_code() {
    let mut dev = device();
    dev.create_resource(64, 64).unwrap();
    let r = finish_ctrl(&mut dev, 0x1101);
    assert_eq!(r, Err(VirtioDeviceError::UnexpectedResponse(0x1101)));
}

fn display_info_response(active: usize) -> Vec<u8> {
    let mut pmodes = Vec::new();
    for i in 0..16usize {
        if i < active {
            pmodes.push(VirtioGpuDisplayOne {
                r: VirtioGpuRect { x: 10 * i as u32, y: 0, width: 1024, height: 768 },
                enabled: 1,
                flags: 0,
            });
        } else {
            pmodes.push(VirtioGpuDisplayOne {
                r: VirtioGpuRect { x: 0, y: 0, width: 0, height: 0 },
                enabled: 0,
                flags: 0,
            });
        }
    }
    VirtioGpuRespDisplayInfo { hdr: response_hdr_struct(0x1101), pmodes }.to_bytes()
}

fn response_hdr_struct(type_: u32) -> VirtioGpuCtrlHdr {
    VirtioGpuCtrlHdr { type_, flags: 0, fence_id: 0, ctx_id: 0, ring_idx: 0 }
}

#[test]
fn display_info_answers_slot_zero_whatever_the_active_count() {
    for active in [1usize, 3, 16] {
        let mut dev = device();
        dev.get_display_info().unwrap();
        dev.control_channel.deliver_completion();
        let rect = dev.complete_display_info(&display_info_response(active)).unwrap();
        assert_eq!(rect, VirtioGpuRect { x: 0, y: 0, width: 1024, height: 768 });
    }
}

#[test]
fn display_info_passes_errors_through() {
    let mut dev = device();
    dev.get_display_info().unwrap();
    dev.control_channel.deliver_completion();
    let mut resp = display_info_response(1);
    resp[0..4].copy_from_slice(&0x1202u32.to_le_bytes());
    let r = dev.complete_display_info(&resp);
    assert_eq!(r, Err(VirtioDeviceError::DeviceError(0x1202)));
}

fn edid_response(size: u32) -> Vec<u8> {
    let mut edid = vec![0u8; 1024];
    for i in 0..1024usize {
        edid[i] = (i % 251) as u8;
    }
    VirtioGpuRespEDID { hdr: response_hdr_struct(0x1104), size, padding: 0, edid }.to_bytes()
}

#[test]
fn edid_exposes_exactly_its_meaningful_bytes() {
    let mut dev = device();
    dev.get_edid().unwrap();
    dev.control_channel.deliver_completion();
    let e = dev.complete_edid(&edid_response(128)).unwrap();
    assert_eq!(e.size, 128);
    let data = e.data();
    assert_eq!(data.len(), 128);
    for i in 0..128usize {
        assert_eq!(data[i], (i % 251) as u8);
    }
}

#[test]
fn edid_size_beyond_capacity_is_a_decode_error() {
    let mut dev = device();
    dev.get_edid().unwrap();
    dev.control_channel.deliver_completion();
    let r = dev.complete_edid(&edid_response(1025));
    assert!(matches!(r, Err(VirtioDeviceError::DecodeError)));
}

#[test]
fn map_blob_decodes_the_mapping_attributes() {
    let mut dev = device();
    dev.map_blob_resource(1, 0).unwrap();
    dev.control_channel.deliver_completion();
    let resp = VirtioGpuRespMapInfo { hdr: response_hdr_struct(0x1106), map_info: 3, padding: 0 }
        .to_bytes();
    let m = dev.complete_map_blob(&resp).unwrap();
    assert_eq!(m.map_info, 3);
}

#[test]
fn create_resource_encodes_the_fixed_policy() {
    let mut dev = device();
    dev.create_resource(1024, 768).unwrap();
    let req = VirtioGpuResourceCreate2d::read_at(dev.control_channel.buffer.as_slice(), 0);
    assert_eq!(req.hdr.type_, 0x0101);
    assert_eq!(req.resource_id, RESOURCE_ID_2D);
    assert_eq!(req.format, 2);
    assert_eq!(req.width, 1024);
    assert_eq!(req.height, 768);
}

#[test]
fn attach_encodes_one_memory_entry() {
    let mut dev = device();
    dev.attach_resource(0x8000_0000, 1024 * 768 * 4).unwrap();
    let b = dev.control_channel.buffer.as_slice();
    let req = VirtioGpuResourceAttachBacking::read_at(b, 0);
    assert_eq!(req.hdr.type_, 0x0106);
    assert_eq!(req.resource_id, RESOURCE_ID_2D);
    assert_eq!(req.nr_entries, 1);
    let entry = VirtioGpuMemEntry::read_at(b, ATTACH_RESOURCE_LEN);
    assert_eq!(entry.addr, 0x8000_0000);
    assert_eq!(entry.length, 1024 * 768 * 4);
    assert_eq!(entry.padding, 0);
}

fn submitted_ctx_request(dev: &GPUDevice) -> VirtioGpuCtxCreate {
    VirtioGpuCtxCreate::from_bytes(dev.control_channel.buffer.as_slice())
}

#[test]
fn context_name_of_at_most_64_bytes_is_copied_exactly() {
    let mut dev = device();
    dev.create_context(1, "test_context", 0).unwrap();
    let req = submitted_ctx_request(&dev);
    assert_eq!(req.hdr.type_, 0x0200);
    assert_eq!(req.hdr.ctx_id, 1);
    assert_eq!(req.nlen, 12);
    assert_eq!(&req.debug_name[..12], b"test_context");
    assert_eq!(&req.debug_name[12..], &[0u8; 52]);
}

#[test]
fn context_name_longer_than_64_bytes_is_truncated() {
    let name = "x".repeat(100);
    let mut dev = device();
    dev.create_context(2, &name, 0).unwrap();
    let req = submitted_ctx_request(&dev);
    assert_eq!(req.nlen, 64);
    assert_eq!(req.debug_name, vec![b'x'; 64]);
}

#[test]
fn framebuffer_scenario_succeeds_step_by_step() {
    let mut dev = device();
    let width = 1024u32;
    let height = 768u32;

    dev.create_resource(width, height).unwrap();
    assert_eq!(finish_ctrl(&mut dev, 0x1100), Ok(0x1100));

    let mut framebuffer = vec![0u8; 1024 * 4096];
    fill_test_pattern(&mut framebuffer, width, height);
    dev.attach_resource(0x8000_0000, width * height * 4).unwrap();
    assert_eq!(finish_ctrl(&mut dev, 0x1100), Ok(0x1100));

    dev.set_scanout(0, 0, width, height).unwrap();
    assert_eq!(finish_ctrl(&mut dev, 0x1100), Ok(0x1100));

    dev.transfer_to_host(0, 0, width, height).unwrap();
    assert_eq!(finish_ctrl(&mut dev, 0x1100), Ok(0x1100));

    dev.flush_resource(0, 0, width, height).unwrap();
    assert_eq!(finish_ctrl(&mut dev, 0x1100), Ok(0x1100));
}

#[test]
fn context_scenario_destroy_succeeds_without_attachments() {
    let mut dev = device();
    dev.create_context(1, "test_context", 0).unwrap();
    assert_eq!(finish_ctrl(&mut dev, 0x1100), Ok(0x1100));
    dev.destroy_context(1).unwrap();
    assert_eq!(finish_ctrl(&mut dev, 0x1100), Ok(0x1100));
}

#[test]
fn three_d_family_encodes_its_requests() {
    let mut dev = device();

    dev.create_3d_resource(2, 1024, 768).unwrap();
    let req = VirtioGpuResourceCreate2d::read_at(dev.control_channel.buffer.as_slice(), 0);
    assert_eq!((req.hdr.type_, req.resource_id, req.format), (0x0204, 2, 1));
    assert_eq!(finish_ctrl(&mut dev, 0x1100), Ok(0x1100));

    dev.transfer_to_host_3d(1, 0, 1024).unwrap();
    let req = VirtioGpuResourceMapBlob::read_at(dev.control_channel.buffer.as_slice(), 0);
    assert_eq!((req.hdr.type_, req.resource_id, req.offset), (0x0205, 1, 0));
    assert_eq!(finish_ctrl(&mut dev, 0x1100), Ok(0x1100));

    dev.transfer_from_host_3d(1, 0, 1024).unwrap();
    let req = VirtioGpuResourceMapBlob::read_at(dev.control_channel.buffer.as_slice(), 0);
    assert_eq!(req.hdr.type_, 0x0206);
    assert_eq!(finish_ctrl(&mut dev, 0x1100), Ok(0x1100));

    dev.submit_3d(1, &[0u8; 1024]).unwrap();
    let req = VirtioGpuCtrlHdr::read_at(dev.control_channel.buffer.as_slice(), 0);
    assert_eq!((req.type_, req.ctx_id), (0x0207, 1));
    assert_eq!(finish_ctrl(&mut dev, 0x1100), Ok(0x1100));

    dev.attach_resource_to_context(1, 1).unwrap();
    let req = VirtioGpuCtrlHdr::read_at(dev.control_channel.buffer.as_slice(), 0);
    assert_eq!((req.type_, req.ctx_id), (0x0202, 1));
    assert_eq!(finish_ctrl(&mut dev, 0x1100), Ok(0x1100));

    dev.detach_resource_from_context(1, 1).unwrap();
    let req = VirtioGpuCtrlHdr::read_at(dev.control_channel.buffer.as_slice(), 0);
    assert_eq!((req.type_, req.ctx_id), (0x0203, 1));
    assert_eq!(finish_ctrl(&mut dev, 0x1100), Ok(0x1100));

    dev.unmap_blob_resource(1).unwrap();
    let req = VirtioGpuResourceUnmapBlob::read_at(dev.control_channel.buffer.as_slice(), 0);
    assert_eq!((req.hdr.type_, req.resource_id), (0x0209, 1));
    assert_eq!(finish_ctrl(&mut dev, 0x1100), Ok(0x1100));
}

#[test]
fn cursor_requests_travel_on_the_cursor_channel() {
    let mut dev = device();
    dev.update_cursor(0, 100, 100, 1, 0, 0).unwrap();
    let req = VirtioGpuUpdateCursor::read_at(dev.cursor_channel.buffer.as_slice(), 0);
    assert_eq!(req.hdr.type_, 0x0300);
    assert_eq!(req.pos, VirtioGpuCursorPos { scanout_id: 0, x: 100, y: 100, padding: 0 });
    assert_eq!((req.resource_id, req.hot_x, req.hot_y), (1, 0, 0));
    assert_eq!(dev.control_channel.state, ChannelState::Idle);
    dev.cursor_channel.deliver_completion();
    assert_eq!(dev.complete_cursor_nodata(&response_header(0x1100)), Ok(0x1100));

    dev.move_cursor(0, 200, 200).unwrap();
    let req = VirtioGpuUpdateCursor::read_at(dev.cursor_channel.buffer.as_slice(), 0);
    assert_eq!(req.hdr.type_, 0x0301);
    assert_eq!(req.pos, VirtioGpuCursorPos { scanout_id: 0, x: 200, y: 200, padding: 0 });
    assert_eq!((req.resource_id, req.hot_x, req.hot_y), (0, 0, 0));
    dev.cursor_channel.deliver_completion();
    assert_eq!(dev.complete_cursor_nodata(&response_header(0x1100)), Ok(0x1100));
}

#[test]
fn test_pattern_paints_the_bands_and_nothing_else() {
    let width = 1024u32;
    let height = 768u32;
    let mut fb = vec![0xABu8; 1024 * 4096];
    fill_test_pattern(&mut fb, width, height);
    let stride = (width * 4) as usize;

    // The white band covers rows 200 through 209.
    assert_eq!(fb[200 * stride], 0xFF);
    assert_eq!(fb[205 * stride + 17], 0xFF);
    assert_eq!(fb[210 * stride - 1], 0xFF);

    // The red column: pixels 0xFFFF0000 (bytes 00 00 FF FF) at offset 500
    // of each stride.
    for k in [0usize, 1, 199, 300, 767] {
        let off = 500 + k * stride;
        assert_eq!(&fb[off..off + 4], &[0x00, 0x00, 0xFF, 0xFF]);
    }

    // The red column wins where it crosses the white band.
    let crossing = 500 + 200 * stride;
    assert_eq!(&fb[crossing..crossing + 4], &[0x00, 0x00, 0xFF, 0xFF]);

    // Everything else keeps its old value.
    assert_eq!(fb[0], 0xAB);
    assert_eq!(fb[499], 0xAB);
    assert_eq!(fb[504], 0xAB);
    assert_eq!(fb[210 * stride], 0xAB);
    assert_eq!(fb[1024 * 4096 - 1], 0xAB);
}
