//! The GPU protocol engine.
//!
//! The engine owns two command channels — control and cursor — and turns
//! each high-level intent into exactly one request/response exchange.  Every
//! operation has two halves.  The submit half serializes the command's
//! fixed-layout request into the head of the channel's DMA buffer and
//! submits it, returning the exchange's completion token.  The surrounding
//! driver then performs the outside work — ringing the doorbell if
//! `should_notify` says so, busy-polling the queue, delivering the
//! completion, and synchronizing the response buffer — and hands the
//! response bytes to the completion half, which pops the exchange and
//! decodes the response header, passing device-reported error codes through
//! and rejecting codes outside the known set.

use vstd::bytes::*;
use vstd::prelude::*;
use vstd::string::StringSliceAdditionalSpecFns;

use crate::config::ConfigManager;
use crate::header::read_u32_at;
use crate::header::HDR_LEN;
use crate::header::GET_DISPLAY_INFO_LEN;
use crate::header::RESP_EDID_LEN;
use crate::header::MAP_INFO_LEN;
use crate::header::EDID_BUFFER_LEN;
use crate::header::CREATE_CONTEXT_LEN;
use crate::header::DEBUG_NAME_LEN;
use crate::header::lemma_ctx_create_round_trip;
use crate::header::VirtioGpuCtrlHdr;
use crate::header::VirtioGpuCtxCreate;
use crate::header::VirtioGpuCtrlType;
use crate::header::VirtioGpuRect;
use crate::header::VirtioGpuRespDisplayInfo;
use crate::header::VirtioGpuRespEDID;
use crate::header::VirtioGpuRespMapInfo;
use crate::queue::Channel;
use crate::queue::ChannelState;
use crate::queue::BUFFER_LEN;
use crate::queue::pops;
use crate::queue::submits;

verus! {

/// Index of the control queue on the transport.
pub const CONTROL_QUEUE_INDEX: u16 = 0;

/// Index of the cursor queue on the transport.
pub const CURSOR_QUEUE_INDEX: u16 = 1;

/// Minimum number of descriptor slots each queue is created with.
pub const QUEUE_SIZE: u16 = 128;

/// The one resource id this driver uses for its 2D framebuffer resource:
/// the driver keeps at most one live 2D resource.
pub const RESOURCE_ID_2D: u32 = 1;

/// The scanout this driver binds and flushes: the primary display.
pub const SCANOUT_ID: u32 = 0;

/// Failure of one protocol operation.
#[derive(Clone, Copy, Debug, PartialEq, Eq, Structural)]
pub enum VirtioDeviceError {
    /// The response's type code is outside the known command and response
    /// sets, or a decoded field exceeds its buffer capacity.
    DecodeError,
    /// The device answered with a recognized error response; the code is
    /// passed through verbatim.
    DeviceError(u32),
    /// The device answered with a recognized code that is not the expected
    /// success code for the command.
    UnexpectedResponse(u32),
    /// The channel's queue could not accept the submission.
    QueueError,
}

/// Classification of a response header against the success code expected
/// for the command, as the completion halves apply it.
pub open spec fn spec_check_response(s: Seq<u8>, expected: u32) -> Result<u32, VirtioDeviceError> {
    let code = spec_u32_from_le_bytes(s.subrange(0, 4));
    if code == expected {
        Result::Ok(code)
    } else if VirtioGpuCtrlType::spec_is_error_code(code) {
        Result::Err(VirtioDeviceError::DeviceError(code))
    } else if VirtioGpuCtrlType::spec_is_success_code(code) {
        Result::Err(VirtioDeviceError::UnexpectedResponse(code))
    } else {
        Result::Err(VirtioDeviceError::DecodeError)
    }
}

/// Decodes a response header's type code and classifies it: the expected
/// success code succeeds, a recognized error code is passed through, any
/// other success code is an unexpected response, and a code outside both
/// response sets is a decode error.
pub fn check_response(resp: &[u8], expected: VirtioGpuCtrlType) -> (r: Result<
    u32,
    VirtioDeviceError,
>)
    requires
        HDR_LEN <= resp@.len(),
    ensures
        r == spec_check_response(resp@, expected.spec_code()),
{
    let code = read_u32_at(resp, 0);
    if code == expected.code() {
        Ok(code)
    } else if code >= 0x1200 && code <= 0x1205 {
        Err(VirtioDeviceError::DeviceError(code))
    } else if code >= 0x1100 && code <= 0x1106 {
        Err(VirtioDeviceError::UnexpectedResponse(code))
    } else {
        Err(VirtioDeviceError::DecodeError)
    }
}

/// Law: a response whose header carries a known error code makes the
/// operation fail with exactly that code; it is never a success.
pub proof fn lemma_error_code_is_reported(s: Seq<u8>, expected: u32)
    requires
        VirtioGpuCtrlType::spec_is_error_code(spec_u32_from_le_bytes(s.subrange(0, 4))),
        VirtioGpuCtrlType::spec_is_success_code(expected),
    ensures
        spec_check_response(s, expected) == Result::<u32, VirtioDeviceError>::Err(
            VirtioDeviceError::DeviceError(spec_u32_from_le_bytes(s.subrange(0, 4))),
        ),
{
}

/// Law: a response whose header carries a code outside both the known
/// success set and the known error set makes the operation fail with a
/// decode error; it is never a success.
pub proof fn lemma_unknown_code_is_decode_error(s: Seq<u8>, expected: u32)
    requires
        !VirtioGpuCtrlType::spec_is_success_code(spec_u32_from_le_bytes(s.subrange(0, 4))),
        !VirtioGpuCtrlType::spec_is_error_code(spec_u32_from_le_bytes(s.subrange(0, 4))),
        VirtioGpuCtrlType::spec_is_success_code(expected),
    ensures
        spec_check_response(s, expected) == Result::<u32, VirtioDeviceError>::Err(
            VirtioDeviceError::DecodeError,
        ),
{
}

/// The protocol engine: the device's configuration access and the two
/// command channels with their dedicated DMA buffers.
#[derive(Clone, Debug)]
pub struct GPUDevice {
    pub config_manager: ConfigManager,
    /// Resource, display and context commands travel here.
    pub control_channel: Channel,
    /// Cursor-plane commands travel here.
    pub cursor_channel: Channel,
}

/// Relation: `post` is `pre` with the request bytes `req` submitted on the
/// control channel under token `t`, and the cursor channel untouched.
pub open spec fn spec_ctrl_submitted(pre: GPUDevice, post: GPUDevice, t: u64, req: Seq<u8>) -> bool {
    &&& submits(pre.control_channel, post.control_channel, t)
    &&& post.control_channel.buffer@ == req + pre.control_channel.buffer@.skip(req.len() as int)
    &&& post.control_channel.pending_notify == true
    &&& post.cursor_channel == pre.cursor_channel
    &&& post.config_manager == pre.config_manager
}

/// Relation: `post` is `pre` with the request bytes `req` submitted on the
/// cursor channel under token `t`, and the control channel untouched.
pub open spec fn spec_cursor_submitted(
    pre: GPUDevice,
    post: GPUDevice,
    t: u64,
    req: Seq<u8>,
) -> bool {
    &&& submits(pre.cursor_channel, post.cursor_channel, t)
    &&& post.cursor_channel.buffer@ == req + pre.cursor_channel.buffer@.skip(req.len() as int)
    &&& post.cursor_channel.pending_notify == true
    &&& post.control_channel == pre.control_channel
    &&& post.config_manager == pre.config_manager
}

/// Relation: `post` is `pre` with the control channel's completed exchange
/// popped and everything else untouched.
pub open spec fn spec_ctrl_popped(pre: GPUDevice, post: GPUDevice) -> bool {
    &&& pops(pre.control_channel, post.control_channel, pre.control_channel.in_flight)
    &&& post.cursor_channel == pre.cursor_channel
    &&& post.config_manager == pre.config_manager
}

/// Relation: `post` is `pre` with the cursor channel's completed exchange
/// popped and everything else untouched.
pub open spec fn spec_cursor_popped(pre: GPUDevice, post: GPUDevice) -> bool {
    &&& pops(pre.cursor_channel, post.cursor_channel, pre.cursor_channel.in_flight)
    &&& post.control_channel == pre.control_channel
    &&& post.config_manager == pre.config_manager
}

// ---------------------------------------------------------------------------
// Bring-up diagnostic pattern.
// ---------------------------------------------------------------------------

/// Byte positions of the white diagnostic band: rows 200 through 209 of the
/// framebuffer, whose pixels are opaque white (every byte 0xFF).
pub open spec fn spec_white_band(width: int, j: int) -> bool {
    200 * width * 4 <= j < 210 * width * 4
}

/// Start offset of the `k`-th pixel of the red diagnostic column: byte 500
/// of each row stride.
pub open spec fn spec_red_start(width: int, k: int) -> int {
    500 + k * (width * 4)
}

/// Whether the `k`-th red pixel falls inside the column's extent.
pub open spec fn spec_red_pixel(width: int, height: int, k: int) -> bool {
    0 <= k && spec_red_start(width, k) < (width - 1) * height * 4 + 500
}

/// Byte positions covered by the red diagnostic column.
pub open spec fn spec_red_byte(width: int, height: int, j: int) -> bool {
    exists|k: int|
        #[trigger] spec_red_pixel(width, height, k) && spec_red_start(width, k) <= j
            < spec_red_start(width, k) + 4
}

/// Byte positions covered by the first `n` pixels of the red column.
spec fn spec_red_byte_upto(width: int, j: int, n: int) -> bool {
    exists|k: int|
        0 <= k < n && #[trigger] spec_red_start(width, k) <= j < spec_red_start(width, k) + 4
}

/// Pre-fills a framebuffer with the bring-up diagnostic pattern: a white
/// horizontal band across rows 200 to 209 and a red vertical column of
/// opaque A8R8G8B8 pixels at byte 500 of every row stride.  The pattern is
/// a placeholder for real pixel production; the red column overwrites the
/// band where the two cross, and every other byte keeps its old value.
pub fn fill_test_pattern(fb: &mut Vec<u8>, width: u32, height: u32)
    requires
        width >= 1,
        height >= 1,
        210 * (width as int) * 4 <= old(fb)@.len(),
        (width - 1) * (height as int) * 4 + 504 <= old(fb)@.len(),
        old(fb)@.len() + 4 * (width as int) <= usize::MAX,
    ensures
        final(fb)@.len() == old(fb)@.len(),
        forall|k: int|
            spec_red_pixel(width as int, height as int, k) ==> {
                let off = #[trigger] spec_red_start(width as int, k);
                &&& final(fb)@[off] == 0u8
                &&& final(fb)@[off + 1] == 0u8
                &&& final(fb)@[off + 2] == 0xFFu8
                &&& final(fb)@[off + 3] == 0xFFu8
            },
        forall|j: int|
            spec_white_band(width as int, j) && !spec_red_byte(width as int, height as int, j)
                ==> final(fb)@[j] == 0xFFu8,
        forall|j: int|
            0 <= j < old(fb)@.len() && !spec_white_band(width as int, j) && !spec_red_byte(
                width as int,
                height as int,
                j,
            ) ==> final(fb)@[j] == old(fb)@[j],
{
    let len = fb.len();
    let w4: usize = (width as usize) * 4;
    let band_start: usize = 200 * w4;
    let band_end: usize = 210 * w4;
    let mut j: usize = band_start;
    while j < band_end
        invariant
            w4 == width * 4,
            band_start == 200 * (width as int) * 4,
            band_end == 210 * (width as int) * 4,
            band_end <= len,
            band_start <= j <= band_end,
            len == fb@.len(),
            len == old(fb)@.len(),
            forall|i: int| band_start <= i < j ==> fb@[i] == 0xFFu8,
            forall|i: int| 0 <= i < len && !(band_start <= i < j) ==> fb@[i] == old(fb)@[i],
        decreases band_end - j,
    {
        fb.set(j, 0xFFu8);
        j = j + 1;
    }
    let ghost mid = fb@;
    let column_end: usize = ((width as usize) - 1) * (height as usize) * 4 + 500;
    let mut off: usize = 500;
    let ghost mut k: int = 0;
    while off < column_end
        invariant
            w4 == width * 4,
            width >= 1,
            height >= 1,
            column_end == (width - 1) * (height as int) * 4 + 500,
            column_end + 4 <= len,
            len + w4 <= usize::MAX,
            len == fb@.len(),
            len == old(fb)@.len(),
            mid.len() == len,
            band_end <= len,
            band_start == 200 * (width as int) * 4,
            band_end == 210 * (width as int) * 4,
            forall|i: int| band_start <= i < band_end ==> mid[i] == 0xFFu8,
            forall|i: int| 0 <= i < len && !(band_start <= i < band_end) ==> mid[i] == old(fb)@[i],
            k >= 0,
            w4 >= 4,
            off == spec_red_start(width as int, k),
            k == 0 || spec_red_start(width as int, k - 1) < column_end,
            forall|k2: int|
                0 <= k2 < k ==> {
                    let o = #[trigger] spec_red_start(width as int, k2);
                    &&& fb@[o] == 0u8
                    &&& fb@[o + 1] == 0u8
                    &&& fb@[o + 2] == 0xFFu8
                    &&& fb@[o + 3] == 0xFFu8
                },
            forall|i: int|
                0 <= i < len && !spec_red_byte_upto(width as int, i, k) ==> fb@[i] == mid[i],
        decreases column_end + w4 - off,
    {
        proof {
            // Earlier pixels sit at least one full stride below this one.
            assert forall|k2: int| 0 <= k2 < k implies #[trigger] spec_red_start(width as int, k2)
                + w4 <= off by {
                assert(500 + k2 * ((width as int) * 4) + (width as int) * 4 <= 500 + k * ((
                width as int) * 4)) by (nonlinear_arith)
                    requires
                        0 <= k2 < k,
                        width >= 1,
                ;
            }
        }
        fb.set(off, 0u8);
        fb.set(off + 1, 0u8);
        fb.set(off + 2, 0xFFu8);
        fb.set(off + 3, 0xFFu8);
        proof {
            assert forall|i: int|
                0 <= i < len && !spec_red_byte_upto(width as int, i, k + 1) implies fb@[i]
                == mid[i] by {
                assert(!spec_red_byte_upto(width as int, i, k));
                assert(!(off <= i < off + 4));
            }
        }
        off = off + w4;
        proof {
            k = k + 1;
            assert((k - 1) * ((width as int) * 4) + (width as int) * 4 == k * ((width as int) * 4))
                by (nonlinear_arith);
        }
    }
    proof {
        // Exactly the pixels written are the pixels of the column: the
        // start offsets grow by one stride per pixel.
        assert forall|k2: int| #[trigger]
            spec_red_pixel(width as int, height as int, k2) implies 0 <= k2 < k by {
            if k2 >= k {
                assert(500 + k2 * ((width as int) * 4) >= 500 + k * ((width as int) * 4))
                    by (nonlinear_arith)
                    requires
                        k2 >= k,
                        width >= 1,
                ;
            }
        }
        assert forall|k2: int| 0 <= k2 < k implies spec_red_pixel(
            width as int,
            height as int,
            k2,
        ) by {
            assert(500 + k2 * ((width as int) * 4) <= 500 + (k - 1) * ((width as int) * 4))
                by (nonlinear_arith)
                requires
                    0 <= k2 <= k - 1,
                    width >= 1,
            ;
        }
        assert forall|i: int|
            spec_red_byte(width as int, height as int, i) == spec_red_byte_upto(
                width as int,
                i,
                k,
            ) by {
            if spec_red_byte(width as int, height as int, i) {
                let k2 = choose|k2: int|
                    spec_red_pixel(width as int, height as int, k2) && spec_red_start(
                        width as int,
                        k2,
                    ) <= i < spec_red_start(width as int, k2) + 4;
                assert(0 <= k2 < k);
                assert(spec_red_byte_upto(width as int, i, k));
            }
            if spec_red_byte_upto(width as int, i, k) {
                let k2 = choose|k2: int|
                    0 <= k2 < k && #[trigger] spec_red_start(width as int, k2) <= i
                        < spec_red_start(width as int, k2) + 4;
                assert(spec_red_pixel(width as int, height as int, k2));
                assert(spec_red_byte(width as int, height as int, i));
            }
        }
        assert forall|j: int|
            spec_white_band(width as int, j) && !spec_red_byte(
                width as int,
                height as int,
                j,
            ) implies fb@[j] == 0xFFu8 by {
            assert(!spec_red_byte_upto(width as int, j, k));
            assert(fb@[j] == mid[j]);
        }
        assert forall|j: int|
            0 <= j < len && !spec_white_band(width as int, j) && !spec_red_byte(
                width as int,
                height as int,
                j,
            ) implies fb@[j] == old(fb)@[j] by {
            assert(!spec_red_byte_upto(width as int, j, k));
            assert(fb@[j] == mid[j]);
        }
    }
}

/// The display-discovery request: a bare header.
pub open spec fn spec_get_display_info_request() -> VirtioGpuCtrlHdr {
    VirtioGpuCtrlHdr::spec_request(
        VirtioGpuCtrlType::VIRTIO_GPU_CMD_GET_DISPLAY_INFO.spec_code(),
    )
}

/// The EDID request for the primary scanout.
pub open spec fn spec_get_edid_request() -> crate::header::VirtioGpuGetEdid {
    crate::header::VirtioGpuGetEdid {
        hdr: VirtioGpuCtrlHdr::spec_request(VirtioGpuCtrlType::VIRTIO_GPU_CMD_GET_EDID.spec_code()),
        scanout: SCANOUT_ID,
        padding: 0,
    }
}

/// The 2D resource-creation request: the fixed resource id, the fixed
/// 32-bit A8R8G8B8 format, and the caller's size.
pub open spec fn spec_create_resource_request(width: u32, height: u32)
    -> crate::header::VirtioGpuResourceCreate2d {
    crate::header::VirtioGpuResourceCreate2d {
        hdr: VirtioGpuCtrlHdr::spec_request(
            VirtioGpuCtrlType::VIRTIO_GPU_CMD_RESOURCE_CREATE_2D.spec_code(),
        ),
        resource_id: RESOURCE_ID_2D,
        format: crate::header::VirtioGpuFormats::VIRTIO_GPU_FORMAT_A8R8G8B8_UNORM.spec_code(),
        width,
        height,
    }
}

/// The backing-attachment request: one entry for the fixed resource.
pub open spec fn spec_attach_resource_request() -> crate::header::VirtioGpuResourceAttachBacking {
    crate::header::VirtioGpuResourceAttachBacking {
        hdr: VirtioGpuCtrlHdr::spec_request(
            VirtioGpuCtrlType::VIRTIO_GPU_CMD_RESOURCE_ATTACH_BACKING.spec_code(),
        ),
        resource_id: RESOURCE_ID_2D,
        nr_entries: 1,
    }
}

/// The single memory entry that follows the attachment request.
pub open spec fn spec_attach_resource_entry(addr: u64, length: u32)
    -> crate::header::VirtioGpuMemEntry {
    crate::header::VirtioGpuMemEntry { addr, length, padding: 0 }
}

/// The scanout-binding request over the given rectangle.
pub open spec fn spec_set_scanout_request(x: u32, y: u32, width: u32, height: u32)
    -> crate::header::VirtioGpuSetScanout {
    crate::header::VirtioGpuSetScanout {
        hdr: VirtioGpuCtrlHdr::spec_request(
            VirtioGpuCtrlType::VIRTIO_GPU_CMD_SET_SCANOUT.spec_code(),
        ),
        r: VirtioGpuRect { x, y, width, height },
        scanout_id: SCANOUT_ID,
        resource_id: RESOURCE_ID_2D,
    }
}

/// The pixel-transfer request over the given rectangle at offset zero.
pub open spec fn spec_transfer_to_host_request(x: u32, y: u32, width: u32, height: u32)
    -> crate::header::VirtioGpuTransferToHost2d {
    crate::header::VirtioGpuTransferToHost2d {
        hdr: VirtioGpuCtrlHdr::spec_request(
            VirtioGpuCtrlType::VIRTIO_GPU_CMD_TRANSFER_TO_HOST_2D.spec_code(),
        ),
        r: VirtioGpuRect { x, y, width, height },
        offset: 0,
        resource_id: RESOURCE_ID_2D,
        padding: 0,
    }
}

/// The flush request over the given rectangle.
pub open spec fn spec_flush_resource_request(x: u32, y: u32, width: u32, height: u32)
    -> crate::header::VirtioGpuResourceFlush {
    crate::header::VirtioGpuResourceFlush {
        hdr: VirtioGpuCtrlHdr::spec_request(
            VirtioGpuCtrlType::VIRTIO_GPU_CMD_RESOURCE_FLUSH.spec_code(),
        ),
        r: VirtioGpuRect { x, y, width, height },
        resource_id: RESOURCE_ID_2D,
        padding: 0,
    }
}

/// The context-destruction request: a bare header carrying the context id.
pub open spec fn spec_destroy_context_request(ctx_id: u32) -> VirtioGpuCtrlHdr {
    VirtioGpuCtrlHdr::spec_request_ctx(
        VirtioGpuCtrlType::VIRTIO_GPU_CMD_CTX_DESTROY.spec_code(),
        ctx_id,
    )
}

/// The context-attachment request.  In this driver the exchanged payload is
/// header-only: the resource id is accepted by the operation but not placed
/// on the wire.
pub open spec fn spec_attach_resource_to_context_request(ctx_id: u32) -> VirtioGpuCtrlHdr {
    VirtioGpuCtrlHdr::spec_request_ctx(
        VirtioGpuCtrlType::VIRTIO_GPU_CMD_CTX_ATTACH_RESOURCE.spec_code(),
        ctx_id,
    )
}

/// The context-detachment request; header-only, like the attachment.
pub open spec fn spec_detach_resource_from_context_request(ctx_id: u32) -> VirtioGpuCtrlHdr {
    VirtioGpuCtrlHdr::spec_request_ctx(
        VirtioGpuCtrlType::VIRTIO_GPU_CMD_CTX_DETACH_RESOURCE.spec_code(),
        ctx_id,
    )
}

/// The 3D resource-creation request: the caller's id and size with the
/// fixed B8G8R8A8 format.
pub open spec fn spec_create_3d_resource_request(resource_id: u32, width: u32, height: u32)
    -> crate::header::VirtioGpuResourceCreate2d {
    crate::header::VirtioGpuResourceCreate2d {
        hdr: VirtioGpuCtrlHdr::spec_request(
            VirtioGpuCtrlType::VIRTIO_GPU_CMD_RESOURCE_CREATE_3D.spec_code(),
        ),
        resource_id,
        format: crate::header::VirtioGpuFormats::VIRTIO_GPU_FORMAT_B8G8R8A8_UNORM.spec_code(),
        width,
        height,
    }
}

/// A 3D transfer request; it shares the blob-map layout.
pub open spec fn spec_transfer_3d_request(type_: u32, resource_id: u32, offset: u64)
    -> crate::header::VirtioGpuResourceMapBlob {
    crate::header::VirtioGpuResourceMapBlob {
        hdr: VirtioGpuCtrlHdr::spec_request(type_),
        resource_id,
        padding: 0,
        offset,
    }
}

/// The 3D submission request: a bare header carrying the context id.
pub open spec fn spec_submit_3d_request(ctx_id: u32) -> VirtioGpuCtrlHdr {
    VirtioGpuCtrlHdr::spec_request_ctx(
        VirtioGpuCtrlType::VIRTIO_GPU_CMD_SUBMIT_3D.spec_code(),
        ctx_id,
    )
}

/// The blob-map request for a resource at a byte offset.
pub open spec fn spec_map_blob_request(resource_id: u32, offset: u64)
    -> crate::header::VirtioGpuResourceMapBlob {
    crate::header::VirtioGpuResourceMapBlob {
        hdr: VirtioGpuCtrlHdr::spec_request(
            VirtioGpuCtrlType::VIRTIO_GPU_CMD_RESOURCE_MAP_BLOB.spec_code(),
        ),
        resource_id,
        padding: 0,
        offset,
    }
}

/// The blob-unmap request for a resource.
pub open spec fn spec_unmap_blob_request(resource_id: u32)
    -> crate::header::VirtioGpuResourceUnmapBlob {
    crate::header::VirtioGpuResourceUnmapBlob {
        hdr: VirtioGpuCtrlHdr::spec_request(
            VirtioGpuCtrlType::VIRTIO_GPU_CMD_RESOURCE_UNMAP_BLOB.spec_code(),
        ),
        resource_id,
        padding: 0,
    }
}

/// The cursor-update request: position, hot spot and backing image.
pub open spec fn spec_update_cursor_request(
    scanout_id: u32,
    x: u32,
    y: u32,
    resource_id: u32,
    hot_x: u32,
    hot_y: u32,
) -> crate::header::VirtioGpuUpdateCursor {
    crate::header::VirtioGpuUpdateCursor {
        hdr: VirtioGpuCtrlHdr::spec_request(
            VirtioGpuCtrlType::VIRTIO_GPU_CMD_UPDATE_CURSOR.spec_code(),
        ),
        pos: crate::header::VirtioGpuCursorPos { scanout_id, x, y, padding: 0 },
        resource_id,
        hot_x,
        hot_y,
        padding: 0,
    }
}

/// The cursor-move request: position only, image fields zero.
pub open spec fn spec_move_cursor_request(scanout_id: u32, x: u32, y: u32)
    -> crate::header::VirtioGpuUpdateCursor {
    crate::header::VirtioGpuUpdateCursor {
        hdr: VirtioGpuCtrlHdr::spec_request(
            VirtioGpuCtrlType::VIRTIO_GPU_CMD_MOVE_CURSOR.spec_code(),
        ),
        pos: crate::header::VirtioGpuCursorPos { scanout_id, x, y, padding: 0 },
        resource_id: 0,
        hot_x: 0,
        hot_y: 0,
        padding: 0,
    }
}

/// The number of meaningful bytes a debug name of length `n` occupies in
/// the fixed name field: `n`, truncated to the field's width.
pub open spec fn spec_debug_name_len(n: int) -> int {
    if n <= DEBUG_NAME_LEN {
        n
    } else {
        DEBUG_NAME_LEN as int
    }
}

impl GPUDevice {
    /// Both channels carry their full DMA page and the configuration window
    /// covers its declared fields.
    pub open spec fn wf(self) -> bool {
        &&& self.config_manager.wf()
        &&& self.control_channel.wf()
        &&& self.cursor_channel.wf()
    }

    /// Feature negotiation: this driver accepts every offered feature bit
    /// unchanged.
    pub fn negotiate_features(features: u64) -> (r: u64)
        ensures
            r == features,
    {
        features
    }

    /// Builds the engine over a configuration capture: two idle channels on
    /// distinct queue indices, each with its own zeroed DMA page.
    pub fn new(config_manager: ConfigManager) -> (r: Self)
        requires
            config_manager.wf(),
        ensures
            r.wf(),
            r.config_manager == config_manager,
            r.control_channel.queue_index == CONTROL_QUEUE_INDEX,
            r.control_channel.state == ChannelState::Idle,
            r.control_channel.next_token == 0,
            r.cursor_channel.queue_index == CURSOR_QUEUE_INDEX,
            r.cursor_channel.state == ChannelState::Idle,
            r.cursor_channel.next_token == 0,
    {
        GPUDevice {
            config_manager,
            control_channel: Channel::new(CONTROL_QUEUE_INDEX),
            cursor_channel: Channel::new(CURSOR_QUEUE_INDEX),
        }
    }

    /// The generic submit half on the control channel: writes the request
    /// into the DMA buffer head and submits the exchange.
    pub fn send_ctrl(&mut self, req: &Vec<u8>) -> (r: Result<u64, VirtioDeviceError>)
        requires
            old(self).wf(),
            req@.len() <= BUFFER_LEN,
            old(self).control_channel.next_token < u64::MAX,
        ensures
            final(self).wf(),
            (r is Ok) <==> old(self).control_channel.state == ChannelState::Idle,
            r is Err ==> *final(self) == *old(self) && r == Err::<u64, VirtioDeviceError>(
                VirtioDeviceError::QueueError,
            ),
            r matches Ok(t) ==> spec_ctrl_submitted(*old(self), *final(self), t, req@),
    {
        match self.control_channel.send_request(req) {
            Some(t) => Ok(t),
            None => Err(VirtioDeviceError::QueueError),
        }
    }

    /// The generic submit half on the cursor channel.
    pub fn send_cursor(&mut self, req: &Vec<u8>) -> (r: Result<u64, VirtioDeviceError>)
        requires
            old(self).wf(),
            req@.len() <= BUFFER_LEN,
            old(self).cursor_channel.next_token < u64::MAX,
        ensures
            final(self).wf(),
            (r is Ok) <==> old(self).cursor_channel.state == ChannelState::Idle,
            r is Err ==> *final(self) == *old(self) && r == Err::<u64, VirtioDeviceError>(
                VirtioDeviceError::QueueError,
            ),
            r matches Ok(t) ==> spec_cursor_submitted(*old(self), *final(self), t, req@),
    {
        match self.cursor_channel.send_request(req) {
            Some(t) => Ok(t),
            None => Err(VirtioDeviceError::QueueError),
        }
    }

    /// Queries the display topology: a header-only request on the control
    /// channel.  The response buffer must be `GET_DISPLAY_INFO_LEN` bytes;
    /// `complete_display_info` decodes it.
    pub fn get_display_info(&mut self) -> (r: Result<u64, VirtioDeviceError>)
        requires
            old(self).wf(),
            old(self).control_channel.next_token < u64::MAX,
        ensures
            final(self).wf(),
            (r is Ok) <==> old(self).control_channel.state == ChannelState::Idle,
            r is Err ==> *final(self) == *old(self) && r == Err::<u64, VirtioDeviceError>(
                VirtioDeviceError::QueueError,
            ),
            r matches Ok(t) ==> spec_ctrl_submitted(
                *old(self),
                *final(self),
                t,
                spec_get_display_info_request().wire_bytes(),
            ),
    {
        let hdr = VirtioGpuCtrlHdr::request(
            VirtioGpuCtrlType::VIRTIO_GPU_CMD_GET_DISPLAY_INFO.code(),
            0,
        );
        let bytes = hdr.to_bytes();
        self.send_ctrl(&bytes)
    }

    /// Queries the primary scanout's EDID block.  The response buffer must
    /// be `RESP_EDID_LEN` bytes; `complete_edid` decodes it.
    pub fn get_edid(&mut self) -> (r: Result<u64, VirtioDeviceError>)
        requires
            old(self).wf(),
            old(self).control_channel.next_token < u64::MAX,
        ensures
            final(self).wf(),
            (r is Ok) <==> old(self).control_channel.state == ChannelState::Idle,
            r is Err ==> *final(self) == *old(self) && r == Err::<u64, VirtioDeviceError>(
                VirtioDeviceError::QueueError,
            ),
            r matches Ok(t) ==> spec_ctrl_submitted(
                *old(self),
                *final(self),
                t,
                spec_get_edid_request().wire_bytes(),
            ),
    {
        let req = crate::header::VirtioGpuGetEdid {
            hdr: VirtioGpuCtrlHdr::request(VirtioGpuCtrlType::VIRTIO_GPU_CMD_GET_EDID.code(), 0),
            scanout: SCANOUT_ID,
            padding: 0,
        };
        let bytes = req.to_bytes();
        self.send_ctrl(&bytes)
    }

    /// Creates the driver's 2D framebuffer resource with the given size.
    /// The resource id and the pixel format are fixed by policy
    /// (`RESOURCE_ID_2D`, 32-bit A8R8G8B8), not taken from the caller.
    pub fn create_resource(&mut self, width: u32, height: u32) -> (r: Result<
        u64,
        VirtioDeviceError,
    >)
        requires
            old(self).wf(),
            old(self).control_channel.next_token < u64::MAX,
        ensures
            final(self).wf(),
            (r is Ok) <==> old(self).control_channel.state == ChannelState::Idle,
            r is Err ==> *final(self) == *old(self) && r == Err::<u64, VirtioDeviceError>(
                VirtioDeviceError::QueueError,
            ),
            r matches Ok(t) ==> spec_ctrl_submitted(
                *old(self),
                *final(self),
                t,
                spec_create_resource_request(width, height).wire_bytes(),
            ),
    {
        let req = crate::header::VirtioGpuResourceCreate2d {
            hdr: VirtioGpuCtrlHdr::request(
                VirtioGpuCtrlType::VIRTIO_GPU_CMD_RESOURCE_CREATE_2D.code(),
                0,
            ),
            resource_id: RESOURCE_ID_2D,
            format: crate::header::VirtioGpuFormats::VIRTIO_GPU_FORMAT_A8R8G8B8_UNORM.code(),
            width,
            height,
        };
        let bytes = req.to_bytes();
        self.send_ctrl(&bytes)
    }

    /// Attaches one backing-memory span to the framebuffer resource: the
    /// attachment request followed by exactly one memory entry describing
    /// the span.  Allocating and pre-filling the span itself is the
    /// caller's side of the exchange.
    pub fn attach_resource(&mut self, addr: u64, length: u32) -> (r: Result<
        u64,
        VirtioDeviceError,
    >)
        requires
            old(self).wf(),
            old(self).control_channel.next_token < u64::MAX,
        ensures
            final(self).wf(),
            (r is Ok) <==> old(self).control_channel.state == ChannelState::Idle,
            r is Err ==> *final(self) == *old(self) && r == Err::<u64, VirtioDeviceError>(
                VirtioDeviceError::QueueError,
            ),
            r matches Ok(t) ==> spec_ctrl_submitted(
                *old(self),
                *final(self),
                t,
                spec_attach_resource_request().wire_bytes() + spec_attach_resource_entry(
                    addr,
                    length,
                ).wire_bytes(),
            ),
    {
        let req = crate::header::VirtioGpuResourceAttachBacking {
            hdr: VirtioGpuCtrlHdr::request(
                VirtioGpuCtrlType::VIRTIO_GPU_CMD_RESOURCE_ATTACH_BACKING.code(),
                0,
            ),
            resource_id: RESOURCE_ID_2D,
            nr_entries: 1,
        };
        let entry = crate::header::VirtioGpuMemEntry { addr, length, padding: 0 };
        let mut bytes = req.to_bytes();
        let mut entry_bytes = entry.to_bytes();
        bytes.append(&mut entry_bytes);
        self.send_ctrl(&bytes)
    }

    /// Binds the framebuffer resource to the primary scanout over the given
    /// rectangle.
    pub fn set_scanout(&mut self, x: u32, y: u32, width: u32, height: u32) -> (r: Result<
        u64,
        VirtioDeviceError,
    >)
        requires
            old(self).wf(),
            old(self).control_channel.next_token < u64::MAX,
        ensures
            final(self).wf(),
            (r is Ok) <==> old(self).control_channel.state == ChannelState::Idle,
            r is Err ==> *final(self) == *old(self) && r == Err::<u64, VirtioDeviceError>(
                VirtioDeviceError::QueueError,
            ),
            r matches Ok(t) ==> spec_ctrl_submitted(
                *old(self),
                *final(self),
                t,
                spec_set_scanout_request(x, y, width, height).wire_bytes(),
            ),
    {
        let req = crate::header::VirtioGpuSetScanout {
            hdr: VirtioGpuCtrlHdr::request(VirtioGpuCtrlType::VIRTIO_GPU_CMD_SET_SCANOUT.code(), 0),
            r: VirtioGpuRect { x, y, width, height },
            scanout_id: SCANOUT_ID,
            resource_id: RESOURCE_ID_2D,
        };
        let bytes = req.to_bytes();
        self.send_ctrl(&bytes)
    }

    /// Transfers pixel data from the attached backing memory into the host
    /// resource over the given rectangle, at byte offset zero.
    pub fn transfer_to_host(&mut self, x: u32, y: u32, width: u32, height: u32) -> (r: Result<
        u64,
        VirtioDeviceError,
    >)
        requires
            old(self).wf(),
            old(self).control_channel.next_token < u64::MAX,
        ensures
            final(self).wf(),
            (r is Ok) <==> old(self).control_channel.state == ChannelState::Idle,
            r is Err ==> *final(self) == *old(self) && r == Err::<u64, VirtioDeviceError>(
                VirtioDeviceError::QueueError,
            ),
            r matches Ok(t) ==> spec_ctrl_submitted(
                *old(self),
                *final(self),
                t,
                spec_transfer_to_host_request(x, y, width, height).wire_bytes(),
            ),
    {
        let req = crate::header::VirtioGpuTransferToHost2d {
            hdr: VirtioGpuCtrlHdr::request(
                VirtioGpuCtrlType::VIRTIO_GPU_CMD_TRANSFER_TO_HOST_2D.code(),
                0,
            ),
            r: VirtioGpuRect { x, y, width, height },
            offset: 0,
            resource_id: RESOURCE_ID_2D,
            padding: 0,
        };
        let bytes = req.to_bytes();
        self.send_ctrl(&bytes)
    }

    /// Flushes the framebuffer resource's rectangle to the display.
    pub fn flush_resource(&mut self, x: u32, y: u32, width: u32, height: u32) -> (r: Result<
        u64,
        VirtioDeviceError,
    >)
        requires
            old(self).wf(),
            old(self).control_channel.next_token < u64::MAX,
        ensures
            final(self).wf(),
            (r is Ok) <==> old(self).control_channel.state == ChannelState::Idle,
            r is Err ==> *final(self) == *old(self) && r == Err::<u64, VirtioDeviceError>(
                VirtioDeviceError::QueueError,
            ),
            r matches Ok(t) ==> spec_ctrl_submitted(
                *old(self),
                *final(self),
                t,
                spec_flush_resource_request(x, y, width, height).wire_bytes(),
            ),
    {
        let req = crate::header::VirtioGpuResourceFlush {
            hdr: VirtioGpuCtrlHdr::request(
                VirtioGpuCtrlType::VIRTIO_GPU_CMD_RESOURCE_FLUSH.code(),
                0,
            ),
            r: VirtioGpuRect { x, y, width, height },
            resource_id: RESOURCE_ID_2D,
            padding: 0,
        };
        let bytes = req.to_bytes();
        self.send_ctrl(&bytes)
    }

    /// Creates a 3D submission context.  The debug name is copied byte for
    /// byte into the request's fixed 64-byte field, truncated to that
    /// width, with the remaining bytes zero and the copied length recorded
    /// in the request.
    pub fn create_context(&mut self, ctx_id: u32, debug_name: &str, context_init: u32) -> (r:
        Result<u64, VirtioDeviceError>)
        requires
            old(self).wf(),
            old(self).control_channel.next_token < u64::MAX,
        ensures
            final(self).wf(),
            (r is Ok) <==> old(self).control_channel.state == ChannelState::Idle,
            r is Err ==> *final(self) == *old(self) && r == Err::<u64, VirtioDeviceError>(
                VirtioDeviceError::QueueError,
            ),
            r matches Ok(t) ==> ({
                let b = final(self).control_channel.buffer@;
                let name = debug_name.spec_bytes();
                let nlen = spec_debug_name_len(name.len() as int);
                &&& submits(old(self).control_channel, final(self).control_channel, t)
                &&& final(self).control_channel.pending_notify == true
                &&& final(self).cursor_channel == old(self).cursor_channel
                &&& final(self).config_manager == old(self).config_manager
                &&& VirtioGpuCtrlHdr::spec_read_at(b, 0) == VirtioGpuCtrlHdr::spec_request_ctx(
                    VirtioGpuCtrlType::VIRTIO_GPU_CMD_CTX_CREATE.spec_code(),
                    ctx_id,
                )
                &&& spec_u32_from_le_bytes(b.subrange(24, 28)) == nlen
                &&& spec_u32_from_le_bytes(b.subrange(28, 32)) == context_init
                &&& (forall|i: int| 0 <= i < nlen ==> #[trigger] b[32 + i] == name[i])
                &&& (forall|i: int| nlen <= i < DEBUG_NAME_LEN ==> #[trigger] b[32 + i] == 0u8)
                &&& b.skip(CREATE_CONTEXT_LEN as int) == old(
                    self,
                ).control_channel.buffer@.skip(CREATE_CONTEXT_LEN as int)
            }),
    {
        let req = VirtioGpuCtxCreate::new(ctx_id, debug_name, context_init);
        let bytes = req.to_bytes();
        let result = self.send_ctrl(&bytes);
        proof {
            if result is Ok {
                lemma_ctx_create_round_trip(req);
                let b = self.control_channel.buffer@;
                let w = req.wire_bytes();
                assert(b.subrange(0, CREATE_CONTEXT_LEN as int) =~= w);
                assert(b.subrange(0, 4) =~= w.subrange(0, 4));
                assert(b.subrange(4, 8) =~= w.subrange(4, 8));
                assert(b.subrange(8, 16) =~= w.subrange(8, 16));
                assert(b.subrange(16, 20) =~= w.subrange(16, 20));
                assert(b[20] == w[20]);
                assert(b.subrange(24, 28) =~= w.subrange(24, 28));
                assert(b.subrange(28, 32) =~= w.subrange(28, 32));
                assert forall|i: int| 0 <= i < DEBUG_NAME_LEN implies b[32 + i]
                    == req.debug_name@[i] by {
                    assert(b[32 + i] == w[32 + i]);
                    assert(w[32 + i] == w.subrange(32, CREATE_CONTEXT_LEN as int)[i]);
                }
                assert(b.skip(CREATE_CONTEXT_LEN as int) =~= old(
                    self,
                ).control_channel.buffer@.skip(CREATE_CONTEXT_LEN as int));
            }
        }
        result
    }

    /// Destroys a 3D submission context; destruction is owed exactly once
    /// per created context and is independent of attachments.
    pub fn destroy_context(&mut self, ctx_id: u32) -> (r: Result<u64, VirtioDeviceError>)
        requires
            old(self).wf(),
            old(self).control_channel.next_token < u64::MAX,
        ensures
            final(self).wf(),
            (r is Ok) <==> old(self).control_channel.state == ChannelState::Idle,
            r is Err ==> *final(self) == *old(self) && r == Err::<u64, VirtioDeviceError>(
                VirtioDeviceError::QueueError,
            ),
            r matches Ok(t) ==> spec_ctrl_submitted(
                *old(self),
                *final(self),
                t,
                spec_destroy_context_request(ctx_id).wire_bytes(),
            ),
    {
        let hdr = VirtioGpuCtrlHdr::request(
            VirtioGpuCtrlType::VIRTIO_GPU_CMD_CTX_DESTROY.code(),
            ctx_id,
        );
        let bytes = hdr.to_bytes();
        self.send_ctrl(&bytes)
    }

    /// Attaches a resource to a context.  The resource id is accepted but,
    /// in this driver, not placed on the wire: the exchanged payload is
    /// header-only.
    pub fn attach_resource_to_context(&mut self, ctx_id: u32, _resource_id: u32) -> (r: Result<
        u64,
        VirtioDeviceError,
    >)
        requires
            old(self).wf(),
            old(self).control_channel.next_token < u64::MAX,
        ensures
            final(self).wf(),
            (r is Ok) <==> old(self).control_channel.state == ChannelState::Idle,
            r is Err ==> *final(self) == *old(self) && r == Err::<u64, VirtioDeviceError>(
                VirtioDeviceError::QueueError,
            ),
            r matches Ok(t) ==> spec_ctrl_submitted(
                *old(self),
                *final(self),
                t,
                spec_attach_resource_to_context_request(ctx_id).wire_bytes(),
            ),
    {
        let hdr = VirtioGpuCtrlHdr::request(
            VirtioGpuCtrlType::VIRTIO_GPU_CMD_CTX_ATTACH_RESOURCE.code(),
            ctx_id,
        );
        let bytes = hdr.to_bytes();
        self.send_ctrl(&bytes)
    }

    /// Detaches a resource from a context; header-only, like the
    /// attachment.
    pub fn detach_resource_from_context(&mut self, ctx_id: u32, _resource_id: u32) -> (r: Result<
        u64,
        VirtioDeviceError,
    >)
        requires
            old(self).wf(),
            old(self).control_channel.next_token < u64::MAX,
        ensures
            final(self).wf(),
            (r is Ok) <==> old(self).control_channel.state == ChannelState::Idle,
            r is Err ==> *final(self) == *old(self) && r == Err::<u64, VirtioDeviceError>(
                VirtioDeviceError::QueueError,
            ),
            r matches Ok(t) ==> spec_ctrl_submitted(
                *old(self),
                *final(self),
                t,
                spec_detach_resource_from_context_request(ctx_id).wire_bytes(),
            ),
    {
        let hdr = VirtioGpuCtrlHdr::request(
            VirtioGpuCtrlType::VIRTIO_GPU_CMD_CTX_DETACH_RESOURCE.code(),
            ctx_id,
        );
        let bytes = hdr.to_bytes();
        self.send_ctrl(&bytes)
    }

    /// Creates a 3D resource with the caller's id and size; the format is
    /// fixed to B8G8R8A8.
    pub fn create_3d_resource(&mut self, resource_id: u32, width: u32, height: u32) -> (r: Result<
        u64,
        VirtioDeviceError,
    >)
        requires
            old(self).wf(),
            old(self).control_channel.next_token < u64::MAX,
        ensures
            final(self).wf(),
            (r is Ok) <==> old(self).control_channel.state == ChannelState::Idle,
            r is Err ==> *final(self) == *old(self) && r == Err::<u64, VirtioDeviceError>(
                VirtioDeviceError::QueueError,
            ),
            r matches Ok(t) ==> spec_ctrl_submitted(
                *old(self),
                *final(self),
                t,
                spec_create_3d_resource_request(resource_id, width, height).wire_bytes(),
            ),
    {
        let req = crate::header::VirtioGpuResourceCreate2d {
            hdr: VirtioGpuCtrlHdr::request(
                VirtioGpuCtrlType::VIRTIO_GPU_CMD_RESOURCE_CREATE_3D.code(),
                0,
            ),
            resource_id,
            format: crate::header::VirtioGpuFormats::VIRTIO_GPU_FORMAT_B8G8R8A8_UNORM.code(),
            width,
            height,
        };
        let bytes = req.to_bytes();
        self.send_ctrl(&bytes)
    }

    /// Transfers a resource's data to the host in 3D mode.  The length is
    /// accepted but, in this driver, not placed on the wire: the request
    /// carries the resource id and offset only.
    pub fn transfer_to_host_3d(&mut self, resource_id: u32, offset: u64, _length: u32) -> (r:
        Result<u64, VirtioDeviceError>)
        requires
            old(self).wf(),
            old(self).control_channel.next_token < u64::MAX,
        ensures
            final(self).wf(),
            (r is Ok) <==> old(self).control_channel.state == ChannelState::Idle,
            r is Err ==> *final(self) == *old(self) && r == Err::<u64, VirtioDeviceError>(
                VirtioDeviceError::QueueError,
            ),
            r matches Ok(t) ==> spec_ctrl_submitted(
                *old(self),
                *final(self),
                t,
                spec_transfer_3d_request(
                    VirtioGpuCtrlType::VIRTIO_GPU_CMD_TRANSFER_TO_HOST_3D.spec_code(),
                    resource_id,
                    offset,
                ).wire_bytes(),
            ),
    {
        let req = crate::header::VirtioGpuResourceMapBlob {
            hdr: VirtioGpuCtrlHdr::request(
                VirtioGpuCtrlType::VIRTIO_GPU_CMD_TRANSFER_TO_HOST_3D.code(),
                0,
            ),
            resource_id,
            padding: 0,
            offset,
        };
        let bytes = req.to_bytes();
        self.send_ctrl(&bytes)
    }

    /// Transfers a resource's data from the host in 3D mode; the mirror of
    /// `transfer_to_host_3d`.
    pub fn transfer_from_host_3d(&mut self, resource_id: u32, offset: u64, _length: u32) -> (r:
        Result<u64, VirtioDeviceError>)
        requires
            old(self).wf(),
            old(self).control_channel.next_token < u64::MAX,
        ensures
            final(self).wf(),
            (r is Ok) <==> old(self).control_channel.state == ChannelState::Idle,
            r is Err ==> *final(self) == *old(self) && r == Err::<u64, VirtioDeviceError>(
                VirtioDeviceError::QueueError,
            ),
            r matches Ok(t) ==> spec_ctrl_submitted(
                *old(self),
                *final(self),
                t,
                spec_transfer_3d_request(
                    VirtioGpuCtrlType::VIRTIO_GPU_CMD_TRANSFER_FROM_HOST_3D.spec_code(),
                    resource_id,
                    offset,
                ).wire_bytes(),
            ),
    {
        let req = crate::header::VirtioGpuResourceMapBlob {
            hdr: VirtioGpuCtrlHdr::request(
                VirtioGpuCtrlType::VIRTIO_GPU_CMD_TRANSFER_FROM_HOST_3D.code(),
                0,
            ),
            resource_id,
            padding: 0,
            offset,
        };
        let bytes = req.to_bytes();
        self.send_ctrl(&bytes)
    }

    /// Submits a 3D command stream to a context.  The stream is accepted
    /// but, in this driver, not placed on the wire: the exchanged payload
    /// is header-only.
    pub fn submit_3d(&mut self, ctx_id: u32, _command_stream: &[u8]) -> (r: Result<
        u64,
        VirtioDeviceError,
    >)
        requires
            old(self).wf(),
            old(self).control_channel.next_token < u64::MAX,
        ensures
            final(self).wf(),
            (r is Ok) <==> old(self).control_channel.state == ChannelState::Idle,
            r is Err ==> *final(self) == *old(self) && r == Err::<u64, VirtioDeviceError>(
                VirtioDeviceError::QueueError,
            ),
            r matches Ok(t) ==> spec_ctrl_submitted(
                *old(self),
                *final(self),
                t,
                spec_submit_3d_request(ctx_id).wire_bytes(),
            ),
    {
        let hdr = VirtioGpuCtrlHdr::request(
            VirtioGpuCtrlType::VIRTIO_GPU_CMD_SUBMIT_3D.code(),
            ctx_id,
        );
        let bytes = hdr.to_bytes();
        self.send_ctrl(&bytes)
    }

    /// Maps a blob resource at a byte offset; `complete_map_blob` decodes
    /// the mapping attributes from the response.
    pub fn map_blob_resource(&mut self, resource_id: u32, offset: u64) -> (r: Result<
        u64,
        VirtioDeviceError,
    >)
        requires
            old(self).wf(),
            old(self).control_channel.next_token < u64::MAX,
        ensures
            final(self).wf(),
            (r is Ok) <==> old(self).control_channel.state == ChannelState::Idle,
            r is Err ==> *final(self) == *old(self) && r == Err::<u64, VirtioDeviceError>(
                VirtioDeviceError::QueueError,
            ),
            r matches Ok(t) ==> spec_ctrl_submitted(
                *old(self),
                *final(self),
                t,
                spec_map_blob_request(resource_id, offset).wire_bytes(),
            ),
    {
        let req = crate::header::VirtioGpuResourceMapBlob {
            hdr: VirtioGpuCtrlHdr::request(
                VirtioGpuCtrlType::VIRTIO_GPU_CMD_RESOURCE_MAP_BLOB.code(),
                0,
            ),
            resource_id,
            padding: 0,
            offset,
        };
        let bytes = req.to_bytes();
        self.send_ctrl(&bytes)
    }

    /// Unmaps a blob resource.
    pub fn unmap_blob_resource(&mut self, resource_id: u32) -> (r: Result<u64, VirtioDeviceError>)
        requires
            old(self).wf(),
            old(self).control_channel.next_token < u64::MAX,
        ensures
            final(self).wf(),
            (r is Ok) <==> old(self).control_channel.state == ChannelState::Idle,
            r is Err ==> *final(self) == *old(self) && r == Err::<u64, VirtioDeviceError>(
                VirtioDeviceError::QueueError,
            ),
            r matches Ok(t) ==> spec_ctrl_submitted(
                *old(self),
                *final(self),
                t,
                spec_unmap_blob_request(resource_id).wire_bytes(),
            ),
    {
        let req = crate::header::VirtioGpuResourceUnmapBlob {
            hdr: VirtioGpuCtrlHdr::request(
                VirtioGpuCtrlType::VIRTIO_GPU_CMD_RESOURCE_UNMAP_BLOB.code(),
                0,
            ),
            resource_id,
            padding: 0,
        };
        let bytes = req.to_bytes();
        self.send_ctrl(&bytes)
    }

    /// Updates the cursor plane — position, hot spot and backing image —
    /// on the dedicated cursor channel.
    pub fn update_cursor(
        &mut self,
        scanout_id: u32,
        x: u32,
        y: u32,
        resource_id: u32,
        hot_x: u32,
        hot_y: u32,
    ) -> (r: Result<u64, VirtioDeviceError>)
        requires
            old(self).wf(),
            old(self).cursor_channel.next_token < u64::MAX,
        ensures
            final(self).wf(),
            (r is Ok) <==> old(self).cursor_channel.state == ChannelState::Idle,
            r is Err ==> *final(self) == *old(self) && r == Err::<u64, VirtioDeviceError>(
                VirtioDeviceError::QueueError,
            ),
            r matches Ok(t) ==> spec_cursor_submitted(
                *old(self),
                *final(self),
                t,
                spec_update_cursor_request(scanout_id, x, y, resource_id, hot_x, hot_y)
                    .wire_bytes(),
            ),
    {
        let req = crate::header::VirtioGpuUpdateCursor {
            hdr: VirtioGpuCtrlHdr::request(
                VirtioGpuCtrlType::VIRTIO_GPU_CMD_UPDATE_CURSOR.code(),
                0,
            ),
            pos: crate::header::VirtioGpuCursorPos { scanout_id, x, y, padding: 0 },
            resource_id,
            hot_x,
            hot_y,
            padding: 0,
        };
        let bytes = req.to_bytes();
        self.send_cursor(&bytes)
    }

    /// Moves the cursor without changing its image: the image fields are
    /// zeroed; travels on the cursor channel.
    pub fn move_cursor(&mut self, scanout_id: u32, x: u32, y: u32) -> (r: Result<
        u64,
        VirtioDeviceError,
    >)
        requires
            old(self).wf(),
            old(self).cursor_channel.next_token < u64::MAX,
        ensures
            final(self).wf(),
            (r is Ok) <==> old(self).cursor_channel.state == ChannelState::Idle,
            r is Err ==> *final(self) == *old(self) && r == Err::<u64, VirtioDeviceError>(
                VirtioDeviceError::QueueError,
            ),
            r matches Ok(t) ==> spec_cursor_submitted(
                *old(self),
                *final(self),
                t,
                spec_move_cursor_request(scanout_id, x, y).wire_bytes(),
            ),
    {
        let req = crate::header::VirtioGpuUpdateCursor {
            hdr: VirtioGpuCtrlHdr::request(
                VirtioGpuCtrlType::VIRTIO_GPU_CMD_MOVE_CURSOR.code(),
                0,
            ),
            pos: crate::header::VirtioGpuCursorPos { scanout_id, x, y, padding: 0 },
            resource_id: 0,
            hot_x: 0,
            hot_y: 0,
            padding: 0,
        };
        let bytes = req.to_bytes();
        self.send_cursor(&bytes)
    }

    /// The generic completion half for control commands whose success
    /// response is a bare header: pops the exchange and decodes the header,
    /// answering the type code on success.
    pub fn complete_ctrl_nodata(&mut self, resp: &Vec<u8>) -> (r: Result<u32, VirtioDeviceError>)
        requires
            old(self).wf(),
            old(self).control_channel.state == ChannelState::Completed,
            resp@.len() == HDR_LEN,
        ensures
            final(self).wf(),
            spec_ctrl_popped(*old(self), *final(self)),
            r == spec_check_response(
                resp@,
                VirtioGpuCtrlType::VIRTIO_GPU_RESP_OK_NODATA.spec_code(),
            ),
    {
        let _ = self.control_channel.pop_used();
        check_response(resp.as_slice(), VirtioGpuCtrlType::VIRTIO_GPU_RESP_OK_NODATA)
    }

    /// The completion half for cursor commands: both cursor commands expect
    /// a bare-header success.
    pub fn complete_cursor_nodata(&mut self, resp: &Vec<u8>) -> (r: Result<u32, VirtioDeviceError>)
        requires
            old(self).wf(),
            old(self).cursor_channel.state == ChannelState::Completed,
            resp@.len() == HDR_LEN,
        ensures
            final(self).wf(),
            spec_cursor_popped(*old(self), *final(self)),
            r == spec_check_response(
                resp@,
                VirtioGpuCtrlType::VIRTIO_GPU_RESP_OK_NODATA.spec_code(),
            ),
    {
        let _ = self.cursor_channel.pop_used();
        check_response(resp.as_slice(), VirtioGpuCtrlType::VIRTIO_GPU_RESP_OK_NODATA)
    }

    /// The completion half of display discovery: decodes the full response
    /// and answers slot 0's rectangle — the primary display — whatever the
    /// other slots hold.
    pub fn complete_display_info(&mut self, resp: &Vec<u8>) -> (r: Result<
        VirtioGpuRect,
        VirtioDeviceError,
    >)
        requires
            old(self).wf(),
            old(self).control_channel.state == ChannelState::Completed,
            resp@.len() == GET_DISPLAY_INFO_LEN,
        ensures
            final(self).wf(),
            spec_ctrl_popped(*old(self), *final(self)),
            r == match spec_check_response(
                resp@,
                VirtioGpuCtrlType::VIRTIO_GPU_RESP_OK_DISPLAY_INFO.spec_code(),
            ) {
                Result::Ok(_) => Result::<VirtioGpuRect, VirtioDeviceError>::Ok(
                    VirtioGpuRect::spec_read_at(resp@, HDR_LEN as int),
                ),
                Result::Err(e) => Result::<VirtioGpuRect, VirtioDeviceError>::Err(e),
            },
    {
        let _ = self.control_channel.pop_used();
        match check_response(resp.as_slice(), VirtioGpuCtrlType::VIRTIO_GPU_RESP_OK_DISPLAY_INFO) {
            Ok(_) => {
                let info = VirtioGpuRespDisplayInfo::from_bytes(resp.as_slice());
                Ok(info.pmodes[0].r)
            },
            Err(e) => Err(e),
        }
    }

    /// The completion half of an EDID query: decodes the length-prefixed
    /// descriptor block, rejecting a length beyond the buffer's capacity as
    /// a decode error.
    pub fn complete_edid(&mut self, resp: &Vec<u8>) -> (r: Result<
        VirtioGpuRespEDID,
        VirtioDeviceError,
    >)
        requires
            old(self).wf(),
            old(self).control_channel.state == ChannelState::Completed,
            resp@.len() == RESP_EDID_LEN,
        ensures
            final(self).wf(),
            spec_ctrl_popped(*old(self), *final(self)),
            (r is Ok) <==> (spec_check_response(
                resp@,
                VirtioGpuCtrlType::VIRTIO_GPU_RESP_OK_EDID.spec_code(),
            ) is Ok && spec_u32_from_le_bytes(resp@.subrange(24, 28)) <= EDID_BUFFER_LEN),
            r matches Ok(e) ==> {
                &&& e.wf()
                &&& e.hdr == VirtioGpuCtrlHdr::spec_read_at(resp@, 0)
                &&& e.size == spec_u32_from_le_bytes(resp@.subrange(24, 28))
                &&& e.size <= EDID_BUFFER_LEN
                &&& e.padding == spec_u32_from_le_bytes(resp@.subrange(28, 32))
                &&& e.edid@ == resp@.subrange(32, RESP_EDID_LEN as int)
            },
            r matches Err(err) ==> err == (match spec_check_response(
                resp@,
                VirtioGpuCtrlType::VIRTIO_GPU_RESP_OK_EDID.spec_code(),
            ) {
                Result::Ok(_) => VirtioDeviceError::DecodeError,
                Result::Err(e) => e,
            }),
    {
        let _ = self.control_channel.pop_used();
        match check_response(resp.as_slice(), VirtioGpuCtrlType::VIRTIO_GPU_RESP_OK_EDID) {
            Ok(_) => {
                let edid = VirtioGpuRespEDID::from_bytes(resp.as_slice());
                if edid.size as usize <= EDID_BUFFER_LEN {
                    Ok(edid)
                } else {
                    Err(VirtioDeviceError::DecodeError)
                }
            },
            Err(e) => Err(e),
        }
    }

    /// The completion half of a blob map: the success response carries the
    /// mapping's attributes.
    pub fn complete_map_blob(&mut self, resp: &Vec<u8>) -> (r: Result<
        VirtioGpuRespMapInfo,
        VirtioDeviceError,
    >)
        requires
            old(self).wf(),
            old(self).control_channel.state == ChannelState::Completed,
            resp@.len() == MAP_INFO_LEN,
        ensures
            final(self).wf(),
            spec_ctrl_popped(*old(self), *final(self)),
            r == match spec_check_response(
                resp@,
                VirtioGpuCtrlType::VIRTIO_GPU_RESP_OK_MAP_INFO.spec_code(),
            ) {
                Result::Ok(_) => Result::<VirtioGpuRespMapInfo, VirtioDeviceError>::Ok(
                    VirtioGpuRespMapInfo::spec_read_at(resp@, 0),
                ),
                Result::Err(e) => Result::<VirtioGpuRespMapInfo, VirtioDeviceError>::Err(e),
            },
    {
        let _ = self.control_channel.pop_used();
        match check_response(resp.as_slice(), VirtioGpuCtrlType::VIRTIO_GPU_RESP_OK_MAP_INFO) {
            Ok(_) => Ok(VirtioGpuRespMapInfo::read_at(resp.as_slice(), 0)),
            Err(e) => Err(e),
        }
    }
}

} // verus!

