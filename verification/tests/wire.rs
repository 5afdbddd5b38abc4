//! Byte-exact round trips of every wire structure and the command catalog.

use virtio_gpu::header::{
    VirtioGpuCtrlHdr, VirtioGpuCtrlType, VirtioGpuCtxCreate, VirtioGpuCursorPos,
    VirtioGpuDisplayOne, VirtioGpuFormats, VirtioGpuGetEdid, VirtioGpuMemEntry, VirtioGpuRect,
    VirtioGpuRespDisplayInfo, VirtioGpuRespEDID, VirtioGpuRespMapInfo,
    VirtioGpuResourceAttachBacking, VirtioGpuResourceCreate2d, VirtioGpuResourceFlush,
    VirtioGpuResourceMapBlob, VirtioGpuResourceUnmapBlob, VirtioGpuSetScanout,
    VirtioGpuTransferToHost2d, VirtioGpuUpdateCursor, ATTACH_RESOURCE_ENTRY_LEN,
    ATTACH_RESOURCE_LEN, CREATE_CONTEXT_LEN, CREATE_RESOURCE_LEN, CURSOR_POS_LEN,
    DISPLAY_ONE_LEN, EDID_BUFFER_LEN, FLUSH_RESOURCE_LEN, GET_DISPLAY_INFO_LEN, GET_EDID_LEN,
    HDR_LEN, MAP_BLOB_LEN, MAP_INFO_LEN, RECT_LEN, RESP_EDID_LEN, SET_SCANOUT_LEN,
    TRANSFER_TO_HOST_LEN, UNMAP_BLOB_LEN, UPDATE_CURSOR_LEN, VIRTIO_GPU_MAX_SCANOUTS,
};

fn hdr(type_: u32) -> VirtioGpuCtrlHdr {
    VirtioGpuCtrlHdr { type_, flags: 3, fence_id: 0x1122334455667788, ctx_id: 9, ring_idx: 7 }
}

#[test]
fn hdr_round_trip() {
    let h = hdr(0x0100);
    let b = h.to_bytes();
    assert_eq!(b.len(), HDR_LEN);
    let back = VirtioGpuCtrlHdr::read_at(b.as_slice(), 0);
    assert_eq!(back, h);
}

#[test]
fn hdr_layout_is_little_endian_with_zero_padding() {
    let h = VirtioGpuCtrlHdr { type_: 0x0100, flags: 0, fence_id: 0, ctx_id: 0, ring_idx: 0 };
    let b = h.to_bytes();
    assert_eq!(b[0], 0x00);
    assert_eq!(b[1], 0x01);
    assert_eq!(&b[2..24], &[0u8; 22]);
}

#[test]
fn rect_round_trip() {
    let r = VirtioGpuRect { x: 1, y: 2, width: 1024, height: 768 };
    let b = r.to_bytes();
    assert_eq!(b.len(), RECT_LEN);
    assert_eq!(VirtioGpuRect::read_at(b.as_slice(), 0), r);
}

#[test]
fn display_one_round_trip() {
    let d = VirtioGpuDisplayOne {
        r: VirtioGpuRect { x: 0, y: 0, width: 640, height: 480 },
        enabled: 1,
        flags: 2,
    };
    let b = d.to_bytes();
    assert_eq!(b.len(), DISPLAY_ONE_LEN);
    assert_eq!(VirtioGpuDisplayOne::read_at(b.as_slice(), 0), d);
}

#[test]
fn display_info_round_trip() {
    let mut pmodes = Vec::new();
    for i in 0..16u32 {
        pmodes.push(VirtioGpuDisplayOne {
            r: VirtioGpuRect { x: i, y: 2 * i, width: 100 + i, height: 200 + i },
            enabled: i % 2,
            flags: i,
        });
    }
    let resp = VirtioGpuRespDisplayInfo { hdr: hdr(0x1101), pmodes };
    let b = resp.to_bytes();
    assert_eq!(b.len(), GET_DISPLAY_INFO_LEN);
    let back = VirtioGpuRespDisplayInfo::from_bytes(b.as_slice());
    assert_eq!(back.hdr, resp.hdr);
    assert_eq!(back.pmodes.len(), VIRTIO_GPU_MAX_SCANOUTS);
    for i in 0..16 {
        assert_eq!(back.pmodes[i], resp.pmodes[i]);
    }
}

#[test]
fn get_edid_round_trip() {
    let g = VirtioGpuGetEdid { hdr: hdr(0x010A), scanout: 0, padding: 0 };
    let b = g.to_bytes();
    assert_eq!(b.len(), GET_EDID_LEN);
    assert_eq!(VirtioGpuGetEdid::read_at(b.as_slice(), 0), g);
}

#[test]
fn resp_edid_round_trip() {
    let mut edid = vec![0u8; 1024];
    for i in 0..128 {
        edid[i] = i as u8;
    }
    let e = VirtioGpuRespEDID { hdr: hdr(0x1104), size: 128, padding: 0, edid };
    let b = e.to_bytes();
    assert_eq!(b.len(), RESP_EDID_LEN);
    let back = VirtioGpuRespEDID::from_bytes(b.as_slice());
    assert_eq!(back.hdr, e.hdr);
    assert_eq!(back.size, 128);
    assert_eq!(back.padding, 0);
    assert_eq!(back.edid, e.edid);
}

#[test]
fn resp_edid_default_is_zeroed() {
    let e = VirtioGpuRespEDID::default();
    assert_eq!(e.size, 0);
    assert_eq!(e.padding, 0);
    assert_eq!(e.hdr.type_, 0);
    assert_eq!(e.edid, vec![0u8; EDID_BUFFER_LEN]);
}

#[test]
fn create_2d_round_trip() {
    let c = VirtioGpuResourceCreate2d {
        hdr: hdr(0x0101),
        resource_id: 1,
        format: 2,
        width: 1024,
        height: 768,
    };
    let b = c.to_bytes();
    assert_eq!(b.len(), CREATE_RESOURCE_LEN);
    assert_eq!(VirtioGpuResourceCreate2d::read_at(b.as_slice(), 0), c);
}

#[test]
fn attach_backing_round_trip() {
    let a = VirtioGpuResourceAttachBacking { hdr: hdr(0x0106), resource_id: 1, nr_entries: 1 };
    let b = a.to_bytes();
    assert_eq!(b.len(), ATTACH_RESOURCE_LEN);
    assert_eq!(VirtioGpuResourceAttachBacking::read_at(b.as_slice(), 0), a);
}

#[test]
fn mem_entry_round_trip() {
    let m = VirtioGpuMemEntry { addr: 0xDEAD0000, length: 1024 * 768 * 4, padding: 0 };
    let b = m.to_bytes();
    assert_eq!(b.len(), ATTACH_RESOURCE_ENTRY_LEN);
    assert_eq!(VirtioGpuMemEntry::read_at(b.as_slice(), 0), m);
}

#[test]
fn set_scanout_round_trip() {
    let s = VirtioGpuSetScanout {
        hdr: hdr(0x0103),
        r: VirtioGpuRect { x: 0, y: 0, width: 1024, height: 768 },
        scanout_id: 0,
        resource_id: 1,
    };
    let b = s.to_bytes();
    assert_eq!(b.len(), SET_SCANOUT_LEN);
    assert_eq!(VirtioGpuSetScanout::read_at(b.as_slice(), 0), s);
}

#[test]
fn transfer_to_host_round_trip() {
    let t = VirtioGpuTransferToHost2d {
        hdr: hdr(0x0105),
        r: VirtioGpuRect { x: 0, y: 0, width: 1024, height: 768 },
        offset: 4096,
        resource_id: 1,
        padding: 0,
    };
    let b = t.to_bytes();
    assert_eq!(b.len(), TRANSFER_TO_HOST_LEN);
    assert_eq!(VirtioGpuTransferToHost2d::read_at(b.as_slice(), 0), t);
}

#[test]
fn flush_round_trip() {
    let f = VirtioGpuResourceFlush {
        hdr: hdr(0x0104),
        r: VirtioGpuRect { x: 0, y: 0, width: 1024, height: 768 },
        resource_id: 1,
        padding: 0,
    };
    let b = f.to_bytes();
    assert_eq!(b.len(), FLUSH_RESOURCE_LEN);
    assert_eq!(VirtioGpuResourceFlush::read_at(b.as_slice(), 0), f);
}

#[test]
fn ctx_create_round_trip() {
    let c = VirtioGpuCtxCreate::new(1, "test_context", 0);
    let b = c.to_bytes();
    assert_eq!(b.len(), CREATE_CONTEXT_LEN);
    let back = VirtioGpuCtxCreate::from_bytes(b.as_slice());
    assert_eq!(back.hdr, c.hdr);
    assert_eq!(back.nlen, c.nlen);
    assert_eq!(back.context_init, c.context_init);
    assert_eq!(back.debug_name, c.debug_name);
}

#[test]
fn map_blob_round_trip() {
    let m = VirtioGpuResourceMapBlob { hdr: hdr(0x0208), resource_id: 1, padding: 0, offset: 64 };
    let b = m.to_bytes();
    assert_eq!(b.len(), MAP_BLOB_LEN);
    assert_eq!(VirtioGpuResourceMapBlob::read_at(b.as_slice(), 0), m);
}

#[test]
fn map_info_round_trip() {
    let m = VirtioGpuRespMapInfo { hdr: hdr(0x1106), map_info: 5, padding: 0 };
    let b = m.to_bytes();
    assert_eq!(b.len(), MAP_INFO_LEN);
    assert_eq!(VirtioGpuRespMapInfo::read_at(b.as_slice(), 0), m);
}

#[test]
fn unmap_blob_round_trip() {
    let u = VirtioGpuResourceUnmapBlob { hdr: hdr(0x0209), resource_id: 1, padding: 0 };
    let b = u.to_bytes();
    assert_eq!(b.len(), UNMAP_BLOB_LEN);
    assert_eq!(VirtioGpuResourceUnmapBlob::read_at(b.as_slice(), 0), u);
}

#[test]
fn cursor_pos_round_trip() {
    let p = VirtioGpuCursorPos { scanout_id: 0, x: 100, y: 100, padding: 0 };
    let b = p.to_bytes();
    assert_eq!(b.len(), CURSOR_POS_LEN);
    assert_eq!(VirtioGpuCursorPos::read_at(b.as_slice(), 0), p);
}

#[test]
fn update_cursor_round_trip() {
    let c = VirtioGpuUpdateCursor {
        hdr: hdr(0x0300),
        pos: VirtioGpuCursorPos { scanout_id: 0, x: 100, y: 100, padding: 0 },
        resource_id: 1,
        hot_x: 0,
        hot_y: 0,
        padding: 0,
    };
    let b = c.to_bytes();
    assert_eq!(b.len(), UPDATE_CURSOR_LEN);
    assert_eq!(VirtioGpuUpdateCursor::read_at(b.as_slice(), 0), c);
}

#[test]
fn catalog_round_trip_all_codes() {
    let codes: Vec<u32> = (0x0100..=0x010D)
        .chain(0x0200..=0x0209)
        .chain(0x0300..=0x0301)
        .chain(0x1100..=0x1106)
        .chain(0x1200..=0x1205)
        .collect();
    assert_eq!(codes.len(), 39);
    for code in codes {
        let t = VirtioGpuCtrlType::from_code(code)
            .unwrap_or_else(|| panic!("code {:#x} must be known", code));
        assert_eq!(t.code(), code);
    }
}

#[test]
fn catalog_rejects_unknown_codes() {
    for code in [0u32, 0x00FF, 0x010E, 0x020A, 0x0302, 0x1107, 0x1206, 0xFFFF_FFFF] {
        assert!(VirtioGpuCtrlType::from_code(code).is_none());
    }
}

#[test]
fn formats_round_trip_and_reject() {
    for code in [1u32, 2, 3, 4, 67, 68, 121, 134] {
        let f = VirtioGpuFormats::from_code(code).unwrap();
        assert_eq!(f.code(), code);
    }
    for code in [0u32, 5, 66, 69, 120, 122, 133, 135] {
        assert!(VirtioGpuFormats::from_code(code).is_none());
    }
}
