//! Wire structures and the command catalog of the GPU device protocol.
//!
//! Every structure has a fixed byte layout: multi-byte integers are encoded
//! in the byte order fixed by the transport (little-endian), fields follow
//! one another with no implicit padding, and each structure's exact encoded
//! length is a named constant.  `wire_bytes` is the specification of that
//! layout; `to_bytes` produces it and the `read_at` / `from_bytes` functions
//! recover the fields from a byte buffer.

use vstd::bytes::*;
use vstd::prelude::*;
use vstd::slice::slice_index_get;
use vstd::slice::slice_subrange;
use vstd::slice::slice_to_vec;
use vstd::string::StringSliceAdditionalSpecFns;

use crate::zeroed_bytes;

verus! {

/// Encoded length of a `VirtioGpuCtrlHdr`.
pub const HDR_LEN: usize = 24;

/// Encoded length of a `VirtioGpuRect`.
pub const RECT_LEN: usize = 16;

// ---------------------------------------------------------------------------
// Little-endian field helpers.
// ---------------------------------------------------------------------------

/// Appends the little-endian encoding of `x` to `out`.
pub fn push_u32(out: &mut Vec<u8>, x: u32)
    ensures
        final(out)@ == old(out)@ + spec_u32_to_le_bytes(x),
{
    let mut b = u32_to_le_bytes(x);
    out.append(&mut b);
}

/// Appends the little-endian encoding of `x` to `out`.
pub fn push_u64(out: &mut Vec<u8>, x: u64)
    ensures
        final(out)@ == old(out)@ + spec_u64_to_le_bytes(x),
{
    let mut b = u64_to_le_bytes(x);
    out.append(&mut b);
}

/// Reads the little-endian `u32` that starts at byte `off` of `b`.
pub fn read_u32_at(b: &[u8], off: usize) -> (x: u32)
    requires
        off + 4 <= b@.len(),
    ensures
        x == spec_u32_from_le_bytes(b@.subrange(off as int, off as int + 4)),
{
    let len = b.len();
    assert(off + 4 <= len);
    u32_from_le_bytes(slice_subrange(b, off, off + 4))
}

/// Reads the little-endian `u64` that starts at byte `off` of `b`.
pub fn read_u64_at(b: &[u8], off: usize) -> (x: u64)
    requires
        off + 8 <= b@.len(),
    ensures
        x == spec_u64_from_le_bytes(b@.subrange(off as int, off as int + 8)),
{
    let len = b.len();
    assert(off + 8 <= len);
    u64_from_le_bytes(slice_subrange(b, off, off + 8))
}

// ---------------------------------------------------------------------------
// Command header.
// ---------------------------------------------------------------------------

/// Envelope of every command and response.  On the wire the header closes
/// with three padding bytes that are always zero; they carry no data and are
/// not stored.
#[derive(Clone, Copy, Debug, PartialEq, Eq, Structural)]
pub struct VirtioGpuCtrlHdr {
    /// A `VirtioGpuCtrlType` code in its wire representation.
    pub type_: u32,
    /// Fence-present and ring-index-present bits.
    pub flags: u32,
    pub fence_id: u64,
    /// Submission context; meaningful for the 3D command family only.
    pub ctx_id: u32,
    pub ring_idx: u8,
}

impl VirtioGpuCtrlHdr {
    /// The exact byte layout of the header.
    pub open spec fn wire_bytes(self) -> Seq<u8> {
        spec_u32_to_le_bytes(self.type_) + spec_u32_to_le_bytes(self.flags)
            + spec_u64_to_le_bytes(self.fence_id) + spec_u32_to_le_bytes(self.ctx_id)
            + seq![self.ring_idx, 0u8, 0u8, 0u8]
    }

    /// The header whose encoding starts at byte `off` of `s`.
    pub open spec fn spec_read_at(s: Seq<u8>, off: int) -> Self {
        VirtioGpuCtrlHdr {
            type_: spec_u32_from_le_bytes(s.subrange(off, off + 4)),
            flags: spec_u32_from_le_bytes(s.subrange(off + 4, off + 8)),
            fence_id: spec_u64_from_le_bytes(s.subrange(off + 8, off + 16)),
            ctx_id: spec_u32_from_le_bytes(s.subrange(off + 16, off + 20)),
            ring_idx: s[off + 20],
        }
    }

    /// A header for a plain request: the given type code, everything else zero.
    pub open spec fn spec_request(type_: u32) -> Self {
        VirtioGpuCtrlHdr { type_, flags: 0, fence_id: 0, ctx_id: 0, ring_idx: 0 }
    }

    /// A request header with a context id, as the 3D family uses.
    pub open spec fn spec_request_ctx(type_: u32, ctx_id: u32) -> Self {
        VirtioGpuCtrlHdr { type_, flags: 0, fence_id: 0, ctx_id, ring_idx: 0 }
    }

    /// Builds the request header with the given type code and context id.
    pub fn request(type_: u32, ctx_id: u32) -> (r: Self)
        ensures
            r == Self::spec_request_ctx(type_, ctx_id),
    {
        VirtioGpuCtrlHdr { type_, flags: 0, fence_id: 0, ctx_id, ring_idx: 0 }
    }

    /// Serializes the header; the result is exactly `HDR_LEN` bytes.
    pub fn to_bytes(&self) -> (r: Vec<u8>)
        ensures
            r@ == self.wire_bytes(),
            r@.len() == HDR_LEN,
    {
        let mut out: Vec<u8> = Vec::new();
        push_u32(&mut out, self.type_);
        push_u32(&mut out, self.flags);
        push_u64(&mut out, self.fence_id);
        push_u32(&mut out, self.ctx_id);
        out.push(self.ring_idx);
        out.push(0u8);
        out.push(0u8);
        out.push(0u8);
        proof {
            lemma_auto_spec_u32_to_from_le_bytes();
            lemma_auto_spec_u64_to_from_le_bytes();
            assert(out@ =~= self.wire_bytes());
        }
        out
    }

    /// Recovers the header whose encoding starts at byte `off` of `b`.
    pub fn read_at(b: &[u8], off: usize) -> (r: Self)
        requires
            off + HDR_LEN <= b@.len(),
        ensures
            r == Self::spec_read_at(b@, off as int),
    {
        let len = b.len();
        assert(off + HDR_LEN <= len);
        let type_ = read_u32_at(b, off);
        let flags = read_u32_at(b, off + 4);
        let fence_id = read_u64_at(b, off + 8);
        let ctx_id = read_u32_at(b, off + 16);
        let ring_idx = *slice_index_get(b, off + 20);
        VirtioGpuCtrlHdr { type_, flags, fence_id, ctx_id, ring_idx }
    }
}

// ---------------------------------------------------------------------------
// Command catalog.
// ---------------------------------------------------------------------------

/// The command and response type codes of the protocol.  Conversion from the
/// raw wire integer goes through `from_code`, which rejects every code
/// outside this set instead of coercing it.
#[derive(Clone, Copy, Debug, PartialEq, Eq, Structural)]
#[allow(non_camel_case_types)]
pub enum VirtioGpuCtrlType {
    // 2D commands
    VIRTIO_GPU_CMD_GET_DISPLAY_INFO,
    VIRTIO_GPU_CMD_RESOURCE_CREATE_2D,
    VIRTIO_GPU_CMD_RESOURCE_UNREF,
    VIRTIO_GPU_CMD_SET_SCANOUT,
    VIRTIO_GPU_CMD_RESOURCE_FLUSH,
    VIRTIO_GPU_CMD_TRANSFER_TO_HOST_2D,
    VIRTIO_GPU_CMD_RESOURCE_ATTACH_BACKING,
    VIRTIO_GPU_CMD_RESOURCE_DETACH_BACKING,
    VIRTIO_GPU_CMD_GET_CAPSET_INFO,
    VIRTIO_GPU_CMD_GET_CAPSET,
    VIRTIO_GPU_CMD_GET_EDID,
    VIRTIO_GPU_CMD_RESOURCE_ASSIGN_UUID,
    VIRTIO_GPU_CMD_RESOURCE_CREATE_BLOB,
    VIRTIO_GPU_CMD_SET_SCANOUT_BLOB,
    // 3D commands
    VIRTIO_GPU_CMD_CTX_CREATE,
    VIRTIO_GPU_CMD_CTX_DESTROY,
    VIRTIO_GPU_CMD_CTX_ATTACH_RESOURCE,
    VIRTIO_GPU_CMD_CTX_DETACH_RESOURCE,
    VIRTIO_GPU_CMD_RESOURCE_CREATE_3D,
    VIRTIO_GPU_CMD_TRANSFER_TO_HOST_3D,
    VIRTIO_GPU_CMD_TRANSFER_FROM_HOST_3D,
    VIRTIO_GPU_CMD_SUBMIT_3D,
    VIRTIO_GPU_CMD_RESOURCE_MAP_BLOB,
    VIRTIO_GPU_CMD_RESOURCE_UNMAP_BLOB,
    // cursor commands
    VIRTIO_GPU_CMD_UPDATE_CURSOR,
    VIRTIO_GPU_CMD_MOVE_CURSOR,
    // success responses
    VIRTIO_GPU_RESP_OK_NODATA,
    VIRTIO_GPU_RESP_OK_DISPLAY_INFO,
    VIRTIO_GPU_RESP_OK_CAPSET_INFO,
    VIRTIO_GPU_RESP_OK_CAPSET,
    VIRTIO_GPU_RESP_OK_EDID,
    VIRTIO_GPU_RESP_OK_RESOURCE_UUID,
    VIRTIO_GPU_RESP_OK_MAP_INFO,
    // error responses
    VIRTIO_GPU_RESP_ERR_UNSPEC,
    VIRTIO_GPU_RESP_ERR_OUT_OF_MEMORY,
    VIRTIO_GPU_RESP_ERR_INVALID_SCANOUT_ID,
    VIRTIO_GPU_RESP_ERR_INVALID_RESOURCE_ID,
    VIRTIO_GPU_RESP_ERR_INVALID_CONTEXT_ID,
    VIRTIO_GPU_RESP_ERR_INVALID_PARAMETER,
}

impl VirtioGpuCtrlType {
    /// The 32-bit code that stands for this identifier on the wire.
    pub open spec fn spec_code(self) -> u32 {
        match self {
            VirtioGpuCtrlType::VIRTIO_GPU_CMD_GET_DISPLAY_INFO => 0x0100,
            VirtioGpuCtrlType::VIRTIO_GPU_CMD_RESOURCE_CREATE_2D => 0x0101,
            VirtioGpuCtrlType::VIRTIO_GPU_CMD_RESOURCE_UNREF => 0x0102,
            VirtioGpuCtrlType::VIRTIO_GPU_CMD_SET_SCANOUT => 0x0103,
            VirtioGpuCtrlType::VIRTIO_GPU_CMD_RESOURCE_FLUSH => 0x0104,
            VirtioGpuCtrlType::VIRTIO_GPU_CMD_TRANSFER_TO_HOST_2D => 0x0105,
            VirtioGpuCtrlType::VIRTIO_GPU_CMD_RESOURCE_ATTACH_BACKING => 0x0106,
            VirtioGpuCtrlType::VIRTIO_GPU_CMD_RESOURCE_DETACH_BACKING => 0x0107,
            VirtioGpuCtrlType::VIRTIO_GPU_CMD_GET_CAPSET_INFO => 0x0108,
            VirtioGpuCtrlType::VIRTIO_GPU_CMD_GET_CAPSET => 0x0109,
            VirtioGpuCtrlType::VIRTIO_GPU_CMD_GET_EDID => 0x010A,
            VirtioGpuCtrlType::VIRTIO_GPU_CMD_RESOURCE_ASSIGN_UUID => 0x010B,
            VirtioGpuCtrlType::VIRTIO_GPU_CMD_RESOURCE_CREATE_BLOB => 0x010C,
            VirtioGpuCtrlType::VIRTIO_GPU_CMD_SET_SCANOUT_BLOB => 0x010D,
            VirtioGpuCtrlType::VIRTIO_GPU_CMD_CTX_CREATE => 0x0200,
            VirtioGpuCtrlType::VIRTIO_GPU_CMD_CTX_DESTROY => 0x0201,
            VirtioGpuCtrlType::VIRTIO_GPU_CMD_CTX_ATTACH_RESOURCE => 0x0202,
            VirtioGpuCtrlType::VIRTIO_GPU_CMD_CTX_DETACH_RESOURCE => 0x0203,
            VirtioGpuCtrlType::VIRTIO_GPU_CMD_RESOURCE_CREATE_3D => 0x0204,
            VirtioGpuCtrlType::VIRTIO_GPU_CMD_TRANSFER_TO_HOST_3D => 0x0205,
            VirtioGpuCtrlType::VIRTIO_GPU_CMD_TRANSFER_FROM_HOST_3D => 0x0206,
            VirtioGpuCtrlType::VIRTIO_GPU_CMD_SUBMIT_3D => 0x0207,
            VirtioGpuCtrlType::VIRTIO_GPU_CMD_RESOURCE_MAP_BLOB => 0x0208,
            VirtioGpuCtrlType::VIRTIO_GPU_CMD_RESOURCE_UNMAP_BLOB => 0x0209,
            VirtioGpuCtrlType::VIRTIO_GPU_CMD_UPDATE_CURSOR => 0x0300,
            VirtioGpuCtrlType::VIRTIO_GPU_CMD_MOVE_CURSOR => 0x0301,
            VirtioGpuCtrlType::VIRTIO_GPU_RESP_OK_NODATA => 0x1100,
            VirtioGpuCtrlType::VIRTIO_GPU_RESP_OK_DISPLAY_INFO => 0x1101,
            VirtioGpuCtrlType::VIRTIO_GPU_RESP_OK_CAPSET_INFO => 0x1102,
            VirtioGpuCtrlType::VIRTIO_GPU_RESP_OK_CAPSET => 0x1103,
            VirtioGpuCtrlType::VIRTIO_GPU_RESP_OK_EDID => 0x1104,
            VirtioGpuCtrlType::VIRTIO_GPU_RESP_OK_RESOURCE_UUID => 0x1105,
            VirtioGpuCtrlType::VIRTIO_GPU_RESP_OK_MAP_INFO => 0x1106,
            VirtioGpuCtrlType::VIRTIO_GPU_RESP_ERR_UNSPEC => 0x1200,
            VirtioGpuCtrlType::VIRTIO_GPU_RESP_ERR_OUT_OF_MEMORY => 0x1201,
            VirtioGpuCtrlType::VIRTIO_GPU_RESP_ERR_INVALID_SCANOUT_ID => 0x1202,
            VirtioGpuCtrlType::VIRTIO_GPU_RESP_ERR_INVALID_RESOURCE_ID => 0x1203,
            VirtioGpuCtrlType::VIRTIO_GPU_RESP_ERR_INVALID_CONTEXT_ID => 0x1204,
            VirtioGpuCtrlType::VIRTIO_GPU_RESP_ERR_INVALID_PARAMETER => 0x1205,
        }
    }

    /// The typed identifier that the code `v` stands for, if any.
    pub open spec fn spec_from_code(v: u32) -> Option<Self> {
        if v == 0x0100 { Some(VirtioGpuCtrlType::VIRTIO_GPU_CMD_GET_DISPLAY_INFO) }
        else if v == 0x0101 { Some(VirtioGpuCtrlType::VIRTIO_GPU_CMD_RESOURCE_CREATE_2D) }
        else if v == 0x0102 { Some(VirtioGpuCtrlType::VIRTIO_GPU_CMD_RESOURCE_UNREF) }
        else if v == 0x0103 { Some(VirtioGpuCtrlType::VIRTIO_GPU_CMD_SET_SCANOUT) }
        else if v == 0x0104 { Some(VirtioGpuCtrlType::VIRTIO_GPU_CMD_RESOURCE_FLUSH) }
        else if v == 0x0105 { Some(VirtioGpuCtrlType::VIRTIO_GPU_CMD_TRANSFER_TO_HOST_2D) }
        else if v == 0x0106 { Some(VirtioGpuCtrlType::VIRTIO_GPU_CMD_RESOURCE_ATTACH_BACKING) }
        else if v == 0x0107 { Some(VirtioGpuCtrlType::VIRTIO_GPU_CMD_RESOURCE_DETACH_BACKING) }
        else if v == 0x0108 { Some(VirtioGpuCtrlType::VIRTIO_GPU_CMD_GET_CAPSET_INFO) }
        else if v == 0x0109 { Some(VirtioGpuCtrlType::VIRTIO_GPU_CMD_GET_CAPSET) }
        else if v == 0x010A { Some(VirtioGpuCtrlType::VIRTIO_GPU_CMD_GET_EDID) }
        else if v == 0x010B { Some(VirtioGpuCtrlType::VIRTIO_GPU_CMD_RESOURCE_ASSIGN_UUID) }
        else if v == 0x010C { Some(VirtioGpuCtrlType::VIRTIO_GPU_CMD_RESOURCE_CREATE_BLOB) }
        else if v == 0x010D { Some(VirtioGpuCtrlType::VIRTIO_GPU_CMD_SET_SCANOUT_BLOB) }
        else if v == 0x0200 { Some(VirtioGpuCtrlType::VIRTIO_GPU_CMD_CTX_CREATE) }
        else if v == 0x0201 { Some(VirtioGpuCtrlType::VIRTIO_GPU_CMD_CTX_DESTROY) }
        else if v == 0x0202 { Some(VirtioGpuCtrlType::VIRTIO_GPU_CMD_CTX_ATTACH_RESOURCE) }
        else if v == 0x0203 { Some(VirtioGpuCtrlType::VIRTIO_GPU_CMD_CTX_DETACH_RESOURCE) }
        else if v == 0x0204 { Some(VirtioGpuCtrlType::VIRTIO_GPU_CMD_RESOURCE_CREATE_3D) }
        else if v == 0x0205 { Some(VirtioGpuCtrlType::VIRTIO_GPU_CMD_TRANSFER_TO_HOST_3D) }
        else if v == 0x0206 { Some(VirtioGpuCtrlType::VIRTIO_GPU_CMD_TRANSFER_FROM_HOST_3D) }
        else if v == 0x0207 { Some(VirtioGpuCtrlType::VIRTIO_GPU_CMD_SUBMIT_3D) }
        else if v == 0x0208 { Some(VirtioGpuCtrlType::VIRTIO_GPU_CMD_RESOURCE_MAP_BLOB) }
        else if v == 0x0209 { Some(VirtioGpuCtrlType::VIRTIO_GPU_CMD_RESOURCE_UNMAP_BLOB) }
        else if v == 0x0300 { Some(VirtioGpuCtrlType::VIRTIO_GPU_CMD_UPDATE_CURSOR) }
        else if v == 0x0301 { Some(VirtioGpuCtrlType::VIRTIO_GPU_CMD_MOVE_CURSOR) }
        else if v == 0x1100 { Some(VirtioGpuCtrlType::VIRTIO_GPU_RESP_OK_NODATA) }
        else if v == 0x1101 { Some(VirtioGpuCtrlType::VIRTIO_GPU_RESP_OK_DISPLAY_INFO) }
        else if v == 0x1102 { Some(VirtioGpuCtrlType::VIRTIO_GPU_RESP_OK_CAPSET_INFO) }
        else if v == 0x1103 { Some(VirtioGpuCtrlType::VIRTIO_GPU_RESP_OK_CAPSET) }
        else if v == 0x1104 { Some(VirtioGpuCtrlType::VIRTIO_GPU_RESP_OK_EDID) }
        else if v == 0x1105 { Some(VirtioGpuCtrlType::VIRTIO_GPU_RESP_OK_RESOURCE_UUID) }
        else if v == 0x1106 { Some(VirtioGpuCtrlType::VIRTIO_GPU_RESP_OK_MAP_INFO) }
        else if v == 0x1200 { Some(VirtioGpuCtrlType::VIRTIO_GPU_RESP_ERR_UNSPEC) }
        else if v == 0x1201 { Some(VirtioGpuCtrlType::VIRTIO_GPU_RESP_ERR_OUT_OF_MEMORY) }
        else if v == 0x1202 { Some(VirtioGpuCtrlType::VIRTIO_GPU_RESP_ERR_INVALID_SCANOUT_ID) }
        else if v == 0x1203 { Some(VirtioGpuCtrlType::VIRTIO_GPU_RESP_ERR_INVALID_RESOURCE_ID) }
        else if v == 0x1204 { Some(VirtioGpuCtrlType::VIRTIO_GPU_RESP_ERR_INVALID_CONTEXT_ID) }
        else if v == 0x1205 { Some(VirtioGpuCtrlType::VIRTIO_GPU_RESP_ERR_INVALID_PARAMETER) }
        else { None }
    }

    /// Whether `v` is one of the protocol's command or response codes.
    pub open spec fn spec_is_known_code(v: u32) -> bool {
        Self::spec_from_code(v) is Some
    }

    /// Whether `v` is one of the success response codes.
    pub open spec fn spec_is_success_code(v: u32) -> bool {
        0x1100 <= v <= 0x1106
    }

    /// Whether `v` is one of the error response codes.
    pub open spec fn spec_is_error_code(v: u32) -> bool {
        0x1200 <= v <= 0x1205
    }

    /// The identifier's wire code.
    pub fn code(&self) -> (r: u32)
        ensures
            r == self.spec_code(),
    {
        match self {
            VirtioGpuCtrlType::VIRTIO_GPU_CMD_GET_DISPLAY_INFO => 0x0100,
            VirtioGpuCtrlType::VIRTIO_GPU_CMD_RESOURCE_CREATE_2D => 0x0101,
            VirtioGpuCtrlType::VIRTIO_GPU_CMD_RESOURCE_UNREF => 0x0102,
            VirtioGpuCtrlType::VIRTIO_GPU_CMD_SET_SCANOUT => 0x0103,
            VirtioGpuCtrlType::VIRTIO_GPU_CMD_RESOURCE_FLUSH => 0x0104,
            VirtioGpuCtrlType::VIRTIO_GPU_CMD_TRANSFER_TO_HOST_2D => 0x0105,
            VirtioGpuCtrlType::VIRTIO_GPU_CMD_RESOURCE_ATTACH_BACKING => 0x0106,
            VirtioGpuCtrlType::VIRTIO_GPU_CMD_RESOURCE_DETACH_BACKING => 0x0107,
            VirtioGpuCtrlType::VIRTIO_GPU_CMD_GET_CAPSET_INFO => 0x0108,
            VirtioGpuCtrlType::VIRTIO_GPU_CMD_GET_CAPSET => 0x0109,
            VirtioGpuCtrlType::VIRTIO_GPU_CMD_GET_EDID => 0x010A,
            VirtioGpuCtrlType::VIRTIO_GPU_CMD_RESOURCE_ASSIGN_UUID => 0x010B,
            VirtioGpuCtrlType::VIRTIO_GPU_CMD_RESOURCE_CREATE_BLOB => 0x010C,
            VirtioGpuCtrlType::VIRTIO_GPU_CMD_SET_SCANOUT_BLOB => 0x010D,
            VirtioGpuCtrlType::VIRTIO_GPU_CMD_CTX_CREATE => 0x0200,
            VirtioGpuCtrlType::VIRTIO_GPU_CMD_CTX_DESTROY => 0x0201,
            VirtioGpuCtrlType::VIRTIO_GPU_CMD_CTX_ATTACH_RESOURCE => 0x0202,
            VirtioGpuCtrlType::VIRTIO_GPU_CMD_CTX_DETACH_RESOURCE => 0x0203,
            VirtioGpuCtrlType::VIRTIO_GPU_CMD_RESOURCE_CREATE_3D => 0x0204,
            VirtioGpuCtrlType::VIRTIO_GPU_CMD_TRANSFER_TO_HOST_3D => 0x0205,
            VirtioGpuCtrlType::VIRTIO_GPU_CMD_TRANSFER_FROM_HOST_3D => 0x0206,
            VirtioGpuCtrlType::VIRTIO_GPU_CMD_SUBMIT_3D => 0x0207,
            VirtioGpuCtrlType::VIRTIO_GPU_CMD_RESOURCE_MAP_BLOB => 0x0208,
            VirtioGpuCtrlType::VIRTIO_GPU_CMD_RESOURCE_UNMAP_BLOB => 0x0209,
            VirtioGpuCtrlType::VIRTIO_GPU_CMD_UPDATE_CURSOR => 0x0300,
            VirtioGpuCtrlType::VIRTIO_GPU_CMD_MOVE_CURSOR => 0x0301,
            VirtioGpuCtrlType::VIRTIO_GPU_RESP_OK_NODATA => 0x1100,
            VirtioGpuCtrlType::VIRTIO_GPU_RESP_OK_DISPLAY_INFO => 0x1101,
            VirtioGpuCtrlType::VIRTIO_GPU_RESP_OK_CAPSET_INFO => 0x1102,
            VirtioGpuCtrlType::VIRTIO_GPU_RESP_OK_CAPSET => 0x1103,
            VirtioGpuCtrlType::VIRTIO_GPU_RESP_OK_EDID => 0x1104,
            VirtioGpuCtrlType::VIRTIO_GPU_RESP_OK_RESOURCE_UUID => 0x1105,
            VirtioGpuCtrlType::VIRTIO_GPU_RESP_OK_MAP_INFO => 0x1106,
            VirtioGpuCtrlType::VIRTIO_GPU_RESP_ERR_UNSPEC => 0x1200,
            VirtioGpuCtrlType::VIRTIO_GPU_RESP_ERR_OUT_OF_MEMORY => 0x1201,
            VirtioGpuCtrlType::VIRTIO_GPU_RESP_ERR_INVALID_SCANOUT_ID => 0x1202,
            VirtioGpuCtrlType::VIRTIO_GPU_RESP_ERR_INVALID_RESOURCE_ID => 0x1203,
            VirtioGpuCtrlType::VIRTIO_GPU_RESP_ERR_INVALID_CONTEXT_ID => 0x1204,
            VirtioGpuCtrlType::VIRTIO_GPU_RESP_ERR_INVALID_PARAMETER => 0x1205,
        }
    }

    /// Converts a raw wire code to its typed identifier; a code outside the
    /// known set fails instead of being coerced.
    pub fn from_code(v: u32) -> (r: Option<Self>)
        ensures
            r == Self::spec_from_code(v),
            (r is Some) == Self::spec_is_known_code(v),
    {
        match v {
            0x0100 => Some(VirtioGpuCtrlType::VIRTIO_GPU_CMD_GET_DISPLAY_INFO),
            0x0101 => Some(VirtioGpuCtrlType::VIRTIO_GPU_CMD_RESOURCE_CREATE_2D),
            0x0102 => Some(VirtioGpuCtrlType::VIRTIO_GPU_CMD_RESOURCE_UNREF),
            0x0103 => Some(VirtioGpuCtrlType::VIRTIO_GPU_CMD_SET_SCANOUT),
            0x0104 => Some(VirtioGpuCtrlType::VIRTIO_GPU_CMD_RESOURCE_FLUSH),
            0x0105 => Some(VirtioGpuCtrlType::VIRTIO_GPU_CMD_TRANSFER_TO_HOST_2D),
            0x0106 => Some(VirtioGpuCtrlType::VIRTIO_GPU_CMD_RESOURCE_ATTACH_BACKING),
            0x0107 => Some(VirtioGpuCtrlType::VIRTIO_GPU_CMD_RESOURCE_DETACH_BACKING),
            0x0108 => Some(VirtioGpuCtrlType::VIRTIO_GPU_CMD_GET_CAPSET_INFO),
            0x0109 => Some(VirtioGpuCtrlType::VIRTIO_GPU_CMD_GET_CAPSET),
            0x010A => Some(VirtioGpuCtrlType::VIRTIO_GPU_CMD_GET_EDID),
            0x010B => Some(VirtioGpuCtrlType::VIRTIO_GPU_CMD_RESOURCE_ASSIGN_UUID),
            0x010C => Some(VirtioGpuCtrlType::VIRTIO_GPU_CMD_RESOURCE_CREATE_BLOB),
            0x010D => Some(VirtioGpuCtrlType::VIRTIO_GPU_CMD_SET_SCANOUT_BLOB),
            0x0200 => Some(VirtioGpuCtrlType::VIRTIO_GPU_CMD_CTX_CREATE),
            0x0201 => Some(VirtioGpuCtrlType::VIRTIO_GPU_CMD_CTX_DESTROY),
            0x0202 => Some(VirtioGpuCtrlType::VIRTIO_GPU_CMD_CTX_ATTACH_RESOURCE),
            0x0203 => Some(VirtioGpuCtrlType::VIRTIO_GPU_CMD_CTX_DETACH_RESOURCE),
            0x0204 => Some(VirtioGpuCtrlType::VIRTIO_GPU_CMD_RESOURCE_CREATE_3D),
            0x0205 => Some(VirtioGpuCtrlType::VIRTIO_GPU_CMD_TRANSFER_TO_HOST_3D),
            0x0206 => Some(VirtioGpuCtrlType::VIRTIO_GPU_CMD_TRANSFER_FROM_HOST_3D),
            0x0207 => Some(VirtioGpuCtrlType::VIRTIO_GPU_CMD_SUBMIT_3D),
            0x0208 => Some(VirtioGpuCtrlType::VIRTIO_GPU_CMD_RESOURCE_MAP_BLOB),
            0x0209 => Some(VirtioGpuCtrlType::VIRTIO_GPU_CMD_RESOURCE_UNMAP_BLOB),
            0x0300 => Some(VirtioGpuCtrlType::VIRTIO_GPU_CMD_UPDATE_CURSOR),
            0x0301 => Some(VirtioGpuCtrlType::VIRTIO_GPU_CMD_MOVE_CURSOR),
            0x1100 => Some(VirtioGpuCtrlType::VIRTIO_GPU_RESP_OK_NODATA),
            0x1101 => Some(VirtioGpuCtrlType::VIRTIO_GPU_RESP_OK_DISPLAY_INFO),
            0x1102 => Some(VirtioGpuCtrlType::VIRTIO_GPU_RESP_OK_CAPSET_INFO),
            0x1103 => Some(VirtioGpuCtrlType::VIRTIO_GPU_RESP_OK_CAPSET),
            0x1104 => Some(VirtioGpuCtrlType::VIRTIO_GPU_RESP_OK_EDID),
            0x1105 => Some(VirtioGpuCtrlType::VIRTIO_GPU_RESP_OK_RESOURCE_UUID),
            0x1106 => Some(VirtioGpuCtrlType::VIRTIO_GPU_RESP_OK_MAP_INFO),
            0x1200 => Some(VirtioGpuCtrlType::VIRTIO_GPU_RESP_ERR_UNSPEC),
            0x1201 => Some(VirtioGpuCtrlType::VIRTIO_GPU_RESP_ERR_OUT_OF_MEMORY),
            0x1202 => Some(VirtioGpuCtrlType::VIRTIO_GPU_RESP_ERR_INVALID_SCANOUT_ID),
            0x1203 => Some(VirtioGpuCtrlType::VIRTIO_GPU_RESP_ERR_INVALID_RESOURCE_ID),
            0x1204 => Some(VirtioGpuCtrlType::VIRTIO_GPU_RESP_ERR_INVALID_CONTEXT_ID),
            0x1205 => Some(VirtioGpuCtrlType::VIRTIO_GPU_RESP_ERR_INVALID_PARAMETER),
            _ => None,
        }
    }
}

/// Law: converting an identifier to its wire code and back yields the same
/// identifier, and decoding a known code re-encodes to that code.
pub proof fn lemma_ctrl_type_code_round_trip(t: VirtioGpuCtrlType, v: u32)
    ensures
        VirtioGpuCtrlType::spec_from_code(t.spec_code()) == Some(t),
        VirtioGpuCtrlType::spec_from_code(v) matches Some(u) ==> u.spec_code() == v,
{
}

// ---------------------------------------------------------------------------
// Pixel formats.
// ---------------------------------------------------------------------------

/// The enumerated color layouts.  An unrecognized code fails to decode; it is
/// never silently defaulted.
#[derive(Clone, Copy, Debug, PartialEq, Eq, Structural)]
#[allow(non_camel_case_types)]
pub enum VirtioGpuFormats {
    VIRTIO_GPU_FORMAT_B8G8R8A8_UNORM,
    VIRTIO_GPU_FORMAT_A8R8G8B8_UNORM,
    VIRTIO_GPU_FORMAT_X8R8G8B8_UNORM,
    VIRTIO_GPU_FORMAT_R8G8B8A8_UNORM,
    VIRTIO_GPU_FORMAT_X8B8G8R8_UNORM,
    VIRTIO_GPU_FORMAT_A8B8G8R8_UNORM,
    VIRTIO_GPU_FORMAT_R8G8B8X8_UNORM,
    VIRTIO_GPU_FORMAT_UNKNOWN,
}

impl VirtioGpuFormats {
    /// The 32-bit code that stands for this format on the wire.
    pub open spec fn spec_code(self) -> u32 {
        match self {
            VirtioGpuFormats::VIRTIO_GPU_FORMAT_B8G8R8A8_UNORM => 1,
            VirtioGpuFormats::VIRTIO_GPU_FORMAT_A8R8G8B8_UNORM => 2,
            VirtioGpuFormats::VIRTIO_GPU_FORMAT_X8R8G8B8_UNORM => 3,
            VirtioGpuFormats::VIRTIO_GPU_FORMAT_R8G8B8A8_UNORM => 4,
            VirtioGpuFormats::VIRTIO_GPU_FORMAT_X8B8G8R8_UNORM => 67,
            VirtioGpuFormats::VIRTIO_GPU_FORMAT_A8B8G8R8_UNORM => 68,
            VirtioGpuFormats::VIRTIO_GPU_FORMAT_R8G8B8X8_UNORM => 121,
            VirtioGpuFormats::VIRTIO_GPU_FORMAT_UNKNOWN => 134,
        }
    }

    /// The typed format that the code `v` stands for, if any.
    pub open spec fn spec_from_code(v: u32) -> Option<Self> {
        if v == 1 { Some(VirtioGpuFormats::VIRTIO_GPU_FORMAT_B8G8R8A8_UNORM) }
        else if v == 2 { Some(VirtioGpuFormats::VIRTIO_GPU_FORMAT_A8R8G8B8_UNORM) }
        else if v == 3 { Some(VirtioGpuFormats::VIRTIO_GPU_FORMAT_X8R8G8B8_UNORM) }
        else if v == 4 { Some(VirtioGpuFormats::VIRTIO_GPU_FORMAT_R8G8B8A8_UNORM) }
        else if v == 67 { Some(VirtioGpuFormats::VIRTIO_GPU_FORMAT_X8B8G8R8_UNORM) }
        else if v == 68 { Some(VirtioGpuFormats::VIRTIO_GPU_FORMAT_A8B8G8R8_UNORM) }
        else if v == 121 { Some(VirtioGpuFormats::VIRTIO_GPU_FORMAT_R8G8B8X8_UNORM) }
        else if v == 134 { Some(VirtioGpuFormats::VIRTIO_GPU_FORMAT_UNKNOWN) }
        else { None }
    }

    /// The format's wire code.
    pub fn code(&self) -> (r: u32)
        ensures
            r == self.spec_code(),
    {
        match self {
            VirtioGpuFormats::VIRTIO_GPU_FORMAT_B8G8R8A8_UNORM => 1,
            VirtioGpuFormats::VIRTIO_GPU_FORMAT_A8R8G8B8_UNORM => 2,
            VirtioGpuFormats::VIRTIO_GPU_FORMAT_X8R8G8B8_UNORM => 3,
            VirtioGpuFormats::VIRTIO_GPU_FORMAT_R8G8B8A8_UNORM => 4,
            VirtioGpuFormats::VIRTIO_GPU_FORMAT_X8B8G8R8_UNORM => 67,
            VirtioGpuFormats::VIRTIO_GPU_FORMAT_A8B8G8R8_UNORM => 68,
            VirtioGpuFormats::VIRTIO_GPU_FORMAT_R8G8B8X8_UNORM => 121,
            VirtioGpuFormats::VIRTIO_GPU_FORMAT_UNKNOWN => 134,
        }
    }

    /// Converts a raw wire code to its typed format, rejecting unknown codes.
    pub fn from_code(v: u32) -> (r: Option<Self>)
        ensures
            r == Self::spec_from_code(v),
    {
        match v {
            1 => Some(VirtioGpuFormats::VIRTIO_GPU_FORMAT_B8G8R8A8_UNORM),
            2 => Some(VirtioGpuFormats::VIRTIO_GPU_FORMAT_A8R8G8B8_UNORM),
            3 => Some(VirtioGpuFormats::VIRTIO_GPU_FORMAT_X8R8G8B8_UNORM),
            4 => Some(VirtioGpuFormats::VIRTIO_GPU_FORMAT_R8G8B8A8_UNORM),
            67 => Some(VirtioGpuFormats::VIRTIO_GPU_FORMAT_X8B8G8R8_UNORM),
            68 => Some(VirtioGpuFormats::VIRTIO_GPU_FORMAT_A8B8G8R8_UNORM),
            121 => Some(VirtioGpuFormats::VIRTIO_GPU_FORMAT_R8G8B8X8_UNORM),
            134 => Some(VirtioGpuFormats::VIRTIO_GPU_FORMAT_UNKNOWN),
            _ => None,
        }
    }
}

/// Law: converting a pixel format to its wire code and back yields the same
/// format, and decoding a known code re-encodes to that code.
pub proof fn lemma_format_code_round_trip(f: VirtioGpuFormats, v: u32)
    ensures
        VirtioGpuFormats::spec_from_code(f.spec_code()) == Some(f),
        VirtioGpuFormats::spec_from_code(v) matches Some(u) ==> u.spec_code() == v,
{
}

// ---------------------------------------------------------------------------
// Rectangle.
// ---------------------------------------------------------------------------

/// A screen or resource rectangle.
#[derive(Clone, Copy, Debug, PartialEq, Eq, Structural)]
pub struct VirtioGpuRect {
    pub x: u32,
    pub y: u32,
    pub width: u32,
    pub height: u32,
}

impl VirtioGpuRect {
    /// The exact byte layout of the rectangle.
    pub open spec fn wire_bytes(self) -> Seq<u8> {
        spec_u32_to_le_bytes(self.x) + spec_u32_to_le_bytes(self.y)
            + spec_u32_to_le_bytes(self.width) + spec_u32_to_le_bytes(self.height)
    }

    /// The rectangle whose encoding starts at byte `off` of `s`.
    pub open spec fn spec_read_at(s: Seq<u8>, off: int) -> Self {
        VirtioGpuRect {
            x: spec_u32_from_le_bytes(s.subrange(off, off + 4)),
            y: spec_u32_from_le_bytes(s.subrange(off + 4, off + 8)),
            width: spec_u32_from_le_bytes(s.subrange(off + 8, off + 12)),
            height: spec_u32_from_le_bytes(s.subrange(off + 12, off + 16)),
        }
    }

    /// Appends the rectangle's encoding to `out`.
    pub fn push_bytes(&self, out: &mut Vec<u8>)
        ensures
            final(out)@ == old(out)@ + self.wire_bytes(),
    {
        push_u32(out, self.x);
        push_u32(out, self.y);
        push_u32(out, self.width);
        push_u32(out, self.height);
        proof {
            assert(out@ =~= old(out)@ + self.wire_bytes());
        }
    }

    /// Serializes the rectangle; the result is exactly `RECT_LEN` bytes.
    pub fn to_bytes(&self) -> (r: Vec<u8>)
        ensures
            r@ == self.wire_bytes(),
            r@.len() == RECT_LEN,
    {
        let mut out: Vec<u8> = Vec::new();
        self.push_bytes(&mut out);
        proof {
            lemma_auto_spec_u32_to_from_le_bytes();
            assert(out@ =~= self.wire_bytes());
        }
        out
    }

    /// Recovers the rectangle whose encoding starts at byte `off` of `b`.
    pub fn read_at(b: &[u8], off: usize) -> (r: Self)
        requires
            off + RECT_LEN <= b@.len(),
        ensures
            r == Self::spec_read_at(b@, off as int),
    {
        let len = b.len();
        assert(off + RECT_LEN <= len);
        let x = read_u32_at(b, off);
        let y = read_u32_at(b, off + 4);
        let width = read_u32_at(b, off + 8);
        let height = read_u32_at(b, off + 12);
        VirtioGpuRect { x, y, width, height }
    }
}

/// Law: the rectangle's encoding is `RECT_LEN` bytes long, and decoding it
/// recovers the rectangle, field for field.
pub proof fn lemma_rect_round_trip(r: VirtioGpuRect)
    ensures
        r.wire_bytes().len() == RECT_LEN,
        VirtioGpuRect::spec_read_at(r.wire_bytes(), 0) == r,
{
    lemma_auto_spec_u32_to_from_le_bytes();
    let b = r.wire_bytes();
    assert(b.subrange(0, 4) =~= spec_u32_to_le_bytes(r.x));
    assert(b.subrange(4, 8) =~= spec_u32_to_le_bytes(r.y));
    assert(b.subrange(8, 12) =~= spec_u32_to_le_bytes(r.width));
    assert(b.subrange(12, 16) =~= spec_u32_to_le_bytes(r.height));
}

/// Law: the header's encoding is `HDR_LEN` bytes long, and decoding it
/// recovers the header, field for field.
pub proof fn lemma_hdr_round_trip(h: VirtioGpuCtrlHdr)
    ensures
        h.wire_bytes().len() == HDR_LEN,
        VirtioGpuCtrlHdr::spec_read_at(h.wire_bytes(), 0) == h,
{
    lemma_auto_spec_u32_to_from_le_bytes();
    lemma_auto_spec_u64_to_from_le_bytes();
    let b = h.wire_bytes();
    assert(b.subrange(0, 4) =~= spec_u32_to_le_bytes(h.type_));
    assert(b.subrange(4, 8) =~= spec_u32_to_le_bytes(h.flags));
    assert(b.subrange(8, 16) =~= spec_u64_to_le_bytes(h.fence_id));
    assert(b.subrange(16, 20) =~= spec_u32_to_le_bytes(h.ctx_id));
    assert(b[20] == h.ring_idx);
}

/// Reading a header out of a larger buffer that holds its encoding at `off`
/// recovers the header.
proof fn lemma_hdr_read_extends(b: Seq<u8>, off: int, h: VirtioGpuCtrlHdr)
    requires
        0 <= off,
        off + HDR_LEN <= b.len(),
        b.subrange(off, off + HDR_LEN) == h.wire_bytes(),
    ensures
        VirtioGpuCtrlHdr::spec_read_at(b, off) == h,
{
    lemma_hdr_round_trip(h);
    let w = h.wire_bytes();
    assert(b.subrange(off, off + 4) =~= w.subrange(0, 4));
    assert(b.subrange(off + 4, off + 8) =~= w.subrange(4, 8));
    assert(b.subrange(off + 8, off + 16) =~= w.subrange(8, 16));
    assert(b.subrange(off + 16, off + 20) =~= w.subrange(16, 20));
    assert(b[off + 20] == w[20]);
}

/// Reading a rectangle out of a larger buffer that holds its encoding at
/// `off` recovers the rectangle.
proof fn lemma_rect_read_extends(b: Seq<u8>, off: int, r: VirtioGpuRect)
    requires
        0 <= off,
        off + RECT_LEN <= b.len(),
        b.subrange(off, off + RECT_LEN) == r.wire_bytes(),
    ensures
        VirtioGpuRect::spec_read_at(b, off) == r,
{
    lemma_rect_round_trip(r);
    let w = r.wire_bytes();
    assert(b.subrange(off, off + 4) =~= w.subrange(0, 4));
    assert(b.subrange(off + 4, off + 8) =~= w.subrange(4, 8));
    assert(b.subrange(off + 8, off + 12) =~= w.subrange(8, 12));
    assert(b.subrange(off + 12, off + 16) =~= w.subrange(12, 16));
}

// ---------------------------------------------------------------------------
// Display discovery.
// ---------------------------------------------------------------------------

/// Encoded length of a `VirtioGpuDisplayOne`.
pub const DISPLAY_ONE_LEN: usize = 24;

/// The number of scanout slots a display-info response carries.
pub const VIRTIO_GPU_MAX_SCANOUTS: usize = 16;

/// One scanout's geometry and state in a display-info response.
#[derive(Clone, Copy, Debug, PartialEq, Eq, Structural)]
pub struct VirtioGpuDisplayOne {
    pub r: VirtioGpuRect,
    pub enabled: u32,
    pub flags: u32,
}

impl VirtioGpuDisplayOne {
    /// The exact byte layout of the slot.
    pub open spec fn wire_bytes(self) -> Seq<u8> {
        self.r.wire_bytes() + spec_u32_to_le_bytes(self.enabled)
            + spec_u32_to_le_bytes(self.flags)
    }

    /// The slot whose encoding starts at byte `off` of `s`.
    pub open spec fn spec_read_at(s: Seq<u8>, off: int) -> Self {
        VirtioGpuDisplayOne {
            r: VirtioGpuRect::spec_read_at(s, off),
            enabled: spec_u32_from_le_bytes(s.subrange(off + 16, off + 20)),
            flags: spec_u32_from_le_bytes(s.subrange(off + 20, off + 24)),
        }
    }

    /// Serializes the slot; the result is exactly `DISPLAY_ONE_LEN` bytes.
    pub fn to_bytes(&self) -> (out: Vec<u8>)
        ensures
            out@ == self.wire_bytes(),
            out@.len() == DISPLAY_ONE_LEN,
    {
        let mut out = self.r.to_bytes();
        push_u32(&mut out, self.enabled);
        push_u32(&mut out, self.flags);
        proof {
            lemma_auto_spec_u32_to_from_le_bytes();
            assert(out@ =~= self.wire_bytes());
        }
        out
    }

    /// Recovers the slot whose encoding starts at byte `off` of `b`.
    pub fn read_at(b: &[u8], off: usize) -> (r: Self)
        requires
            off + DISPLAY_ONE_LEN <= b@.len(),
        ensures
            r == Self::spec_read_at(b@, off as int),
    {
        let len = b.len();
        assert(off + DISPLAY_ONE_LEN <= len);
        let rect = VirtioGpuRect::read_at(b, off);
        let enabled = read_u32_at(b, off + 16);
        let flags = read_u32_at(b, off + 20);
        VirtioGpuDisplayOne { r: rect, enabled, flags }
    }
}

/// Law: a display slot's encoding is `DISPLAY_ONE_LEN` bytes long, and
/// decoding it recovers the slot, field for field.
pub proof fn lemma_display_one_round_trip(d: VirtioGpuDisplayOne)
    ensures
        d.wire_bytes().len() == DISPLAY_ONE_LEN,
        VirtioGpuDisplayOne::spec_read_at(d.wire_bytes(), 0) == d,
{
    lemma_auto_spec_u32_to_from_le_bytes();
    lemma_rect_round_trip(d.r);
    let b = d.wire_bytes();
    assert(b.subrange(0, RECT_LEN as int) =~= d.r.wire_bytes());
    lemma_rect_read_extends(b, 0, d.r);
    assert(b.subrange(16, 20) =~= spec_u32_to_le_bytes(d.enabled));
    assert(b.subrange(20, 24) =~= spec_u32_to_le_bytes(d.flags));
}

// ---------------------------------------------------------------------------
// EDID query request.
// ---------------------------------------------------------------------------

/// Encoded length of a `VirtioGpuGetEdid`.
pub const GET_EDID_LEN: usize = 32;

/// Request for the monitor descriptor of one scanout.
#[derive(Clone, Copy, Debug, PartialEq, Eq, Structural)]
pub struct VirtioGpuGetEdid {
    pub hdr: VirtioGpuCtrlHdr,
    pub scanout: u32,
    pub padding: u32,
}

impl VirtioGpuGetEdid {
    /// The exact byte layout of the request.
    pub open spec fn wire_bytes(self) -> Seq<u8> {
        self.hdr.wire_bytes() + spec_u32_to_le_bytes(self.scanout)
            + spec_u32_to_le_bytes(self.padding)
    }

    /// The request whose encoding starts at byte `off` of `s`.
    pub open spec fn spec_read_at(s: Seq<u8>, off: int) -> Self {
        VirtioGpuGetEdid {
            hdr: VirtioGpuCtrlHdr::spec_read_at(s, off),
            scanout: spec_u32_from_le_bytes(s.subrange(off + 24, off + 28)),
            padding: spec_u32_from_le_bytes(s.subrange(off + 28, off + 32)),
        }
    }

    /// Serializes the request; the result is exactly `GET_EDID_LEN` bytes.
    pub fn to_bytes(&self) -> (out: Vec<u8>)
        ensures
            out@ == self.wire_bytes(),
            out@.len() == GET_EDID_LEN,
    {
        let mut out = self.hdr.to_bytes();
        push_u32(&mut out, self.scanout);
        push_u32(&mut out, self.padding);
        proof {
            lemma_auto_spec_u32_to_from_le_bytes();
            assert(out@ =~= self.wire_bytes());
        }
        out
    }

    /// Recovers the request whose encoding starts at byte `off` of `b`.
    pub fn read_at(b: &[u8], off: usize) -> (r: Self)
        requires
            off + GET_EDID_LEN <= b@.len(),
        ensures
            r == Self::spec_read_at(b@, off as int),
    {
        let len = b.len();
        assert(off + GET_EDID_LEN <= len);
        let hdr = VirtioGpuCtrlHdr::read_at(b, off);
        let scanout = read_u32_at(b, off + 24);
        let padding = read_u32_at(b, off + 28);
        VirtioGpuGetEdid { hdr, scanout, padding }
    }
}

/// Law: the EDID request's encoding is `GET_EDID_LEN` bytes long, and
/// decoding it recovers the request, field for field.
pub proof fn lemma_get_edid_round_trip(g: VirtioGpuGetEdid)
    ensures
        g.wire_bytes().len() == GET_EDID_LEN,
        VirtioGpuGetEdid::spec_read_at(g.wire_bytes(), 0) == g,
{
    lemma_auto_spec_u32_to_from_le_bytes();
    lemma_hdr_round_trip(g.hdr);
    let b = g.wire_bytes();
    assert(b.subrange(0, HDR_LEN as int) =~= g.hdr.wire_bytes());
    lemma_hdr_read_extends(b, 0, g.hdr);
    assert(b.subrange(24, 28) =~= spec_u32_to_le_bytes(g.scanout));
    assert(b.subrange(28, 32) =~= spec_u32_to_le_bytes(g.padding));
}

// ---------------------------------------------------------------------------
// Resource creation (shared by the 2D and 3D creation commands).
// ---------------------------------------------------------------------------

/// Encoded length of a `VirtioGpuResourceCreate2d`.
pub const CREATE_RESOURCE_LEN: usize = 40;

/// Request to create a drawable resource with a given format and size.
#[derive(Clone, Copy, Debug, PartialEq, Eq, Structural)]
pub struct VirtioGpuResourceCreate2d {
    pub hdr: VirtioGpuCtrlHdr,
    pub resource_id: u32,
    /// A `VirtioGpuFormats` code in its wire representation.
    pub format: u32,
    pub width: u32,
    pub height: u32,
}

impl VirtioGpuResourceCreate2d {
    /// The exact byte layout of the request.
    pub open spec fn wire_bytes(self) -> Seq<u8> {
        self.hdr.wire_bytes() + spec_u32_to_le_bytes(self.resource_id)
            + spec_u32_to_le_bytes(self.format) + spec_u32_to_le_bytes(self.width)
            + spec_u32_to_le_bytes(self.height)
    }

    /// The request whose encoding starts at byte `off` of `s`.
    pub open spec fn spec_read_at(s: Seq<u8>, off: int) -> Self {
        VirtioGpuResourceCreate2d {
            hdr: VirtioGpuCtrlHdr::spec_read_at(s, off),
            resource_id: spec_u32_from_le_bytes(s.subrange(off + 24, off + 28)),
            format: spec_u32_from_le_bytes(s.subrange(off + 28, off + 32)),
            width: spec_u32_from_le_bytes(s.subrange(off + 32, off + 36)),
            height: spec_u32_from_le_bytes(s.subrange(off + 36, off + 40)),
        }
    }

    /// Serializes the request; the result is exactly `CREATE_RESOURCE_LEN`
    /// bytes.
    pub fn to_bytes(&self) -> (out: Vec<u8>)
        ensures
            out@ == self.wire_bytes(),
            out@.len() == CREATE_RESOURCE_LEN,
    {
        let mut out = self.hdr.to_bytes();
        push_u32(&mut out, self.resource_id);
        push_u32(&mut out, self.format);
        push_u32(&mut out, self.width);
        push_u32(&mut out, self.height);
        proof {
            lemma_auto_spec_u32_to_from_le_bytes();
            assert(out@ =~= self.wire_bytes());
        }
        out
    }

    /// Recovers the request whose encoding starts at byte `off` of `b`.
    pub fn read_at(b: &[u8], off: usize) -> (r: Self)
        requires
            off + CREATE_RESOURCE_LEN <= b@.len(),
        ensures
            r == Self::spec_read_at(b@, off as int),
    {
        let len = b.len();
        assert(off + CREATE_RESOURCE_LEN <= len);
        let hdr = VirtioGpuCtrlHdr::read_at(b, off);
        let resource_id = read_u32_at(b, off + 24);
        let format = read_u32_at(b, off + 28);
        let width = read_u32_at(b, off + 32);
        let height = read_u32_at(b, off + 36);
        VirtioGpuResourceCreate2d { hdr, resource_id, format, width, height }
    }
}

/// Law: the resource-creation request's encoding is `CREATE_RESOURCE_LEN`
/// bytes long, and decoding it recovers the request, field for field.
pub proof fn lemma_create_2d_round_trip(c: VirtioGpuResourceCreate2d)
    ensures
        c.wire_bytes().len() == CREATE_RESOURCE_LEN,
        VirtioGpuResourceCreate2d::spec_read_at(c.wire_bytes(), 0) == c,
{
    lemma_auto_spec_u32_to_from_le_bytes();
    lemma_hdr_round_trip(c.hdr);
    let b = c.wire_bytes();
    assert(b.subrange(0, HDR_LEN as int) =~= c.hdr.wire_bytes());
    lemma_hdr_read_extends(b, 0, c.hdr);
    assert(b.subrange(24, 28) =~= spec_u32_to_le_bytes(c.resource_id));
    assert(b.subrange(28, 32) =~= spec_u32_to_le_bytes(c.format));
    assert(b.subrange(32, 36) =~= spec_u32_to_le_bytes(c.width));
    assert(b.subrange(36, 40) =~= spec_u32_to_le_bytes(c.height));
}

// ---------------------------------------------------------------------------
// Backing-memory attachment.
// ---------------------------------------------------------------------------

/// Encoded length of a `VirtioGpuResourceAttachBacking`.
pub const ATTACH_RESOURCE_LEN: usize = 32;

/// Encoded length of one `VirtioGpuMemEntry` that follows the attachment
/// request on the wire.
pub const ATTACH_RESOURCE_ENTRY_LEN: usize = 16;

/// Request to attach backing memory to a resource; `nr_entries` memory
/// entries follow it on the wire.
#[derive(Clone, Copy, Debug, PartialEq, Eq, Structural)]
pub struct VirtioGpuResourceAttachBacking {
    pub hdr: VirtioGpuCtrlHdr,
    pub resource_id: u32,
    pub nr_entries: u32,
}

impl VirtioGpuResourceAttachBacking {
    /// The exact byte layout of the request.
    pub open spec fn wire_bytes(self) -> Seq<u8> {
        self.hdr.wire_bytes() + spec_u32_to_le_bytes(self.resource_id)
            + spec_u32_to_le_bytes(self.nr_entries)
    }

    /// The request whose encoding starts at byte `off` of `s`.
    pub open spec fn spec_read_at(s: Seq<u8>, off: int) -> Self {
        VirtioGpuResourceAttachBacking {
            hdr: VirtioGpuCtrlHdr::spec_read_at(s, off),
            resource_id: spec_u32_from_le_bytes(s.subrange(off + 24, off + 28)),
            nr_entries: spec_u32_from_le_bytes(s.subrange(off + 28, off + 32)),
        }
    }

    /// Serializes the request; the result is exactly `ATTACH_RESOURCE_LEN`
    /// bytes.
    pub fn to_bytes(&self) -> (out: Vec<u8>)
        ensures
            out@ == self.wire_bytes(),
            out@.len() == ATTACH_RESOURCE_LEN,
    {
        let mut out = self.hdr.to_bytes();
        push_u32(&mut out, self.resource_id);
        push_u32(&mut out, self.nr_entries);
        proof {
            lemma_auto_spec_u32_to_from_le_bytes();
            assert(out@ =~= self.wire_bytes());
        }
        out
    }

    /// Recovers the request whose encoding starts at byte `off` of `b`.
    pub fn read_at(b: &[u8], off: usize) -> (r: Self)
        requires
            off + ATTACH_RESOURCE_LEN <= b@.len(),
        ensures
            r == Self::spec_read_at(b@, off as int),
    {
        let len = b.len();
        assert(off + ATTACH_RESOURCE_LEN <= len);
        let hdr = VirtioGpuCtrlHdr::read_at(b, off);
        let resource_id = read_u32_at(b, off + 24);
        let nr_entries = read_u32_at(b, off + 28);
        VirtioGpuResourceAttachBacking { hdr, resource_id, nr_entries }
    }
}

/// Law: the attachment request's encoding is `ATTACH_RESOURCE_LEN` bytes
/// long, and decoding it recovers the request, field for field.
pub proof fn lemma_attach_backing_round_trip(a: VirtioGpuResourceAttachBacking)
    ensures
        a.wire_bytes().len() == ATTACH_RESOURCE_LEN,
        VirtioGpuResourceAttachBacking::spec_read_at(a.wire_bytes(), 0) == a,
{
    lemma_auto_spec_u32_to_from_le_bytes();
    lemma_hdr_round_trip(a.hdr);
    let b = a.wire_bytes();
    assert(b.subrange(0, HDR_LEN as int) =~= a.hdr.wire_bytes());
    lemma_hdr_read_extends(b, 0, a.hdr);
    assert(b.subrange(24, 28) =~= spec_u32_to_le_bytes(a.resource_id));
    assert(b.subrange(28, 32) =~= spec_u32_to_le_bytes(a.nr_entries));
}

/// One physical-memory span backing a resource.
#[derive(Clone, Copy, Debug, PartialEq, Eq, Structural)]
pub struct VirtioGpuMemEntry {
    /// Physical start address of the span.
    pub addr: u64,
    /// Length of the span in bytes.
    pub length: u32,
    pub padding: u32,
}

impl VirtioGpuMemEntry {
    /// The exact byte layout of the entry.
    pub open spec fn wire_bytes(self) -> Seq<u8> {
        spec_u64_to_le_bytes(self.addr) + spec_u32_to_le_bytes(self.length)
            + spec_u32_to_le_bytes(self.padding)
    }

    /// The entry whose encoding starts at byte `off` of `s`.
    pub open spec fn spec_read_at(s: Seq<u8>, off: int) -> Self {
        VirtioGpuMemEntry {
            addr: spec_u64_from_le_bytes(s.subrange(off, off + 8)),
            length: spec_u32_from_le_bytes(s.subrange(off + 8, off + 12)),
            padding: spec_u32_from_le_bytes(s.subrange(off + 12, off + 16)),
        }
    }

    /// Serializes the entry; the result is exactly
    /// `ATTACH_RESOURCE_ENTRY_LEN` bytes.
    pub fn to_bytes(&self) -> (out: Vec<u8>)
        ensures
            out@ == self.wire_bytes(),
            out@.len() == ATTACH_RESOURCE_ENTRY_LEN,
    {
        let mut out: Vec<u8> = Vec::new();
        push_u64(&mut out, self.addr);
        push_u32(&mut out, self.length);
        push_u32(&mut out, self.padding);
        proof {
            lemma_auto_spec_u32_to_from_le_bytes();
            lemma_auto_spec_u64_to_from_le_bytes();
            assert(out@ =~= self.wire_bytes());
        }
        out
    }

    /// Recovers the entry whose encoding starts at byte `off` of `b`.
    pub fn read_at(b: &[u8], off: usize) -> (r: Self)
        requires
            off + ATTACH_RESOURCE_ENTRY_LEN <= b@.len(),
        ensures
            r == Self::spec_read_at(b@, off as int),
    {
        let len = b.len();
        assert(off + ATTACH_RESOURCE_ENTRY_LEN <= len);
        let addr = read_u64_at(b, off);
        let length = read_u32_at(b, off + 8);
        let padding = read_u32_at(b, off + 12);
        VirtioGpuMemEntry { addr, length, padding }
    }
}

/// Law: a memory entry's encoding is `ATTACH_RESOURCE_ENTRY_LEN` bytes long,
/// and decoding it recovers the entry, field for field.
pub proof fn lemma_mem_entry_round_trip(m: VirtioGpuMemEntry)
    ensures
        m.wire_bytes().len() == ATTACH_RESOURCE_ENTRY_LEN,
        VirtioGpuMemEntry::spec_read_at(m.wire_bytes(), 0) == m,
{
    lemma_auto_spec_u32_to_from_le_bytes();
    lemma_auto_spec_u64_to_from_le_bytes();
    let b = m.wire_bytes();
    assert(b.subrange(0, 8) =~= spec_u64_to_le_bytes(m.addr));
    assert(b.subrange(8, 12) =~= spec_u32_to_le_bytes(m.length));
    assert(b.subrange(12, 16) =~= spec_u32_to_le_bytes(m.padding));
}

// ---------------------------------------------------------------------------
// Display-info response.
// ---------------------------------------------------------------------------

/// Encoded length of a `VirtioGpuRespDisplayInfo`.
pub const GET_DISPLAY_INFO_LEN: usize = 408;

/// The concatenated encodings of a sequence of display slots.
pub open spec fn spec_modes_bytes(ms: Seq<VirtioGpuDisplayOne>) -> Seq<u8>
    decreases ms.len(),
{
    if ms.len() == 0 {
        Seq::empty()
    } else {
        spec_modes_bytes(ms.drop_last()) + ms.last().wire_bytes()
    }
}

/// The slot encodings take `DISPLAY_ONE_LEN` bytes each.
pub proof fn lemma_modes_bytes_len(ms: Seq<VirtioGpuDisplayOne>)
    ensures
        spec_modes_bytes(ms).len() == DISPLAY_ONE_LEN * ms.len(),
    decreases ms.len(),
{
    if ms.len() > 0 {
        lemma_modes_bytes_len(ms.drop_last());
        lemma_display_one_round_trip(ms.last());
    }
}

/// Slot `i`'s encoding sits at byte `DISPLAY_ONE_LEN * i` of the
/// concatenation.
pub proof fn lemma_modes_bytes_index(ms: Seq<VirtioGpuDisplayOne>, i: int)
    requires
        0 <= i < ms.len(),
    ensures
        spec_modes_bytes(ms).subrange(
            DISPLAY_ONE_LEN * i,
            DISPLAY_ONE_LEN * i + DISPLAY_ONE_LEN,
        ) == ms[i].wire_bytes(),
    decreases ms.len(),
{
    lemma_modes_bytes_len(ms);
    lemma_modes_bytes_len(ms.drop_last());
    lemma_display_one_round_trip(ms.last());
    if i == ms.len() - 1 {
        assert(spec_modes_bytes(ms).subrange(
            DISPLAY_ONE_LEN * i,
            DISPLAY_ONE_LEN * i + DISPLAY_ONE_LEN,
        ) =~= ms.last().wire_bytes());
    } else {
        lemma_modes_bytes_index(ms.drop_last(), i);
        assert(spec_modes_bytes(ms).subrange(
            DISPLAY_ONE_LEN * i,
            DISPLAY_ONE_LEN * i + DISPLAY_ONE_LEN,
        ) =~= spec_modes_bytes(ms.drop_last()).subrange(
            DISPLAY_ONE_LEN * i,
            DISPLAY_ONE_LEN * i + DISPLAY_ONE_LEN,
        ));
    }
}

/// Response to display discovery: one slot for each of the device's
/// possible scanouts.
#[derive(Clone, Debug)]
pub struct VirtioGpuRespDisplayInfo {
    pub hdr: VirtioGpuCtrlHdr,
    pub pmodes: Vec<VirtioGpuDisplayOne>,
}

impl VirtioGpuRespDisplayInfo {
    /// The response always carries exactly `VIRTIO_GPU_MAX_SCANOUTS` slots.
    pub open spec fn wf(self) -> bool {
        self.pmodes@.len() == VIRTIO_GPU_MAX_SCANOUTS
    }

    /// The exact byte layout of the response.
    pub open spec fn wire_bytes(self) -> Seq<u8> {
        self.hdr.wire_bytes() + spec_modes_bytes(self.pmodes@)
    }

    /// Serializes the response; the result is exactly
    /// `GET_DISPLAY_INFO_LEN` bytes.
    pub fn to_bytes(&self) -> (out: Vec<u8>)
        requires
            self.wf(),
        ensures
            out@ == self.wire_bytes(),
            out@.len() == GET_DISPLAY_INFO_LEN,
    {
        let mut out = self.hdr.to_bytes();
        let mut i: usize = 0;
        while i < VIRTIO_GPU_MAX_SCANOUTS
            invariant
                self.wf(),
                i <= VIRTIO_GPU_MAX_SCANOUTS,
                out@ == self.hdr.wire_bytes() + spec_modes_bytes(self.pmodes@.take(i as int)),
            decreases VIRTIO_GPU_MAX_SCANOUTS - i,
        {
            let mut piece = self.pmodes[i].to_bytes();
            out.append(&mut piece);
            proof {
                let taken = self.pmodes@.take(i + 1);
                assert(taken.drop_last() =~= self.pmodes@.take(i as int));
                assert(taken.last() == self.pmodes@[i as int]);
            }
            i = i + 1;
        }
        proof {
            assert(self.pmodes@.take(VIRTIO_GPU_MAX_SCANOUTS as int) =~= self.pmodes@);
            lemma_modes_bytes_len(self.pmodes@);
            lemma_hdr_round_trip(self.hdr);
        }
        out
    }

    /// Recovers the response from the first `GET_DISPLAY_INFO_LEN` bytes of
    /// `b`.
    pub fn from_bytes(b: &[u8]) -> (r: Self)
        requires
            GET_DISPLAY_INFO_LEN <= b@.len(),
        ensures
            r.wf(),
            r.hdr == VirtioGpuCtrlHdr::spec_read_at(b@, 0),
            forall|i: int|
                0 <= i < VIRTIO_GPU_MAX_SCANOUTS ==> r.pmodes@[i]
                    == VirtioGpuDisplayOne::spec_read_at(b@, HDR_LEN + DISPLAY_ONE_LEN * i),
    {
        let hdr = VirtioGpuCtrlHdr::read_at(b, 0);
        let mut pmodes: Vec<VirtioGpuDisplayOne> = Vec::new();
        let mut i: usize = 0;
        while i < VIRTIO_GPU_MAX_SCANOUTS
            invariant
                GET_DISPLAY_INFO_LEN <= b@.len(),
                i <= VIRTIO_GPU_MAX_SCANOUTS,
                pmodes@.len() == i,
                forall|j: int|
                    0 <= j < i ==> pmodes@[j]
                        == VirtioGpuDisplayOne::spec_read_at(b@, HDR_LEN + DISPLAY_ONE_LEN * j),
            decreases VIRTIO_GPU_MAX_SCANOUTS - i,
        {
            let slot = VirtioGpuDisplayOne::read_at(b, HDR_LEN + DISPLAY_ONE_LEN * i);
            pmodes.push(slot);
            i = i + 1;
        }
        VirtioGpuRespDisplayInfo { hdr, pmodes }
    }
}

/// Law: the display-info response's encoding is `GET_DISPLAY_INFO_LEN`
/// bytes long, and decoding it recovers the header and every slot.
pub proof fn lemma_display_info_round_trip(d: VirtioGpuRespDisplayInfo)
    requires
        d.wf(),
    ensures
        d.wire_bytes().len() == GET_DISPLAY_INFO_LEN,
        VirtioGpuCtrlHdr::spec_read_at(d.wire_bytes(), 0) == d.hdr,
        forall|i: int|
            0 <= i < VIRTIO_GPU_MAX_SCANOUTS ==> VirtioGpuDisplayOne::spec_read_at(
                d.wire_bytes(),
                HDR_LEN + DISPLAY_ONE_LEN * i,
            ) == d.pmodes@[i],
{
    lemma_hdr_round_trip(d.hdr);
    lemma_modes_bytes_len(d.pmodes@);
    let b = d.wire_bytes();
    assert(b.subrange(0, HDR_LEN as int) =~= d.hdr.wire_bytes());
    lemma_hdr_read_extends(b, 0, d.hdr);
    assert forall|i: int|
        0 <= i < VIRTIO_GPU_MAX_SCANOUTS implies VirtioGpuDisplayOne::spec_read_at(
        b,
        HDR_LEN + DISPLAY_ONE_LEN * i,
    ) == d.pmodes@[i] by {
        lemma_modes_bytes_index(d.pmodes@, i);
        lemma_display_one_round_trip(d.pmodes@[i]);
        let off = HDR_LEN + DISPLAY_ONE_LEN * i;
        assert(b.subrange(off, off + DISPLAY_ONE_LEN) =~= spec_modes_bytes(d.pmodes@).subrange(
            DISPLAY_ONE_LEN * i,
            DISPLAY_ONE_LEN * i + DISPLAY_ONE_LEN,
        ));
        lemma_display_one_read_extends(b, off, d.pmodes@[i]);
    }
}

/// Reading a display slot out of a larger buffer that holds its encoding at
/// `off` recovers the slot.
proof fn lemma_display_one_read_extends(b: Seq<u8>, off: int, d: VirtioGpuDisplayOne)
    requires
        0 <= off,
        off + DISPLAY_ONE_LEN <= b.len(),
        b.subrange(off, off + DISPLAY_ONE_LEN) == d.wire_bytes(),
    ensures
        VirtioGpuDisplayOne::spec_read_at(b, off) == d,
{
    lemma_display_one_round_trip(d);
    lemma_rect_round_trip(d.r);
    let w = d.wire_bytes();
    assert(w.subrange(0, RECT_LEN as int) =~= d.r.wire_bytes());
    assert(b.subrange(off, off + RECT_LEN) =~= w.subrange(0, RECT_LEN as int));
    lemma_rect_read_extends(b, off, d.r);
    assert(b.subrange(off + 16, off + 20) =~= w.subrange(16, 20));
    assert(b.subrange(off + 20, off + 24) =~= w.subrange(20, 24));
}

// ---------------------------------------------------------------------------
// EDID response.
// ---------------------------------------------------------------------------

/// Capacity of the raw descriptor buffer in an EDID response.
pub const EDID_BUFFER_LEN: usize = 1024;

/// Encoded length of a `VirtioGpuRespEDID`.
pub const RESP_EDID_LEN: usize = 1056;

/// Response to an EDID query: a length and a raw descriptor buffer of which
/// only the first `size` bytes are meaningful.
#[derive(Clone, Debug)]
pub struct VirtioGpuRespEDID {
    pub hdr: VirtioGpuCtrlHdr,
    /// Number of meaningful bytes in `edid`; at most `EDID_BUFFER_LEN`.
    pub size: u32,
    pub padding: u32,
    pub edid: Vec<u8>,
}

impl VirtioGpuRespEDID {
    /// The descriptor buffer always has its full capacity.
    pub open spec fn wf(self) -> bool {
        self.edid@.len() == EDID_BUFFER_LEN
    }

    /// The exact byte layout of the response.
    pub open spec fn wire_bytes(self) -> Seq<u8> {
        self.hdr.wire_bytes() + spec_u32_to_le_bytes(self.size)
            + spec_u32_to_le_bytes(self.padding) + self.edid@
    }

    /// The meaningful prefix of the descriptor buffer: its first `size`
    /// bytes.
    pub fn data(&self) -> (r: Vec<u8>)
        requires
            self.wf(),
            self.size <= EDID_BUFFER_LEN,
        ensures
            r@ == self.edid@.subrange(0, self.size as int),
    {
        slice_to_vec(slice_subrange(self.edid.as_slice(), 0, self.size as usize))
    }

    /// Serializes the response; the result is exactly `RESP_EDID_LEN` bytes.
    pub fn to_bytes(&self) -> (out: Vec<u8>)
        requires
            self.wf(),
        ensures
            out@ == self.wire_bytes(),
            out@.len() == RESP_EDID_LEN,
    {
        let mut out = self.hdr.to_bytes();
        push_u32(&mut out, self.size);
        push_u32(&mut out, self.padding);
        let mut tail = slice_to_vec(self.edid.as_slice());
        out.append(&mut tail);
        proof {
            lemma_auto_spec_u32_to_from_le_bytes();
            assert(out@ =~= self.wire_bytes());
        }
        out
    }

    /// Recovers the response from the first `RESP_EDID_LEN` bytes of `b`.
    pub fn from_bytes(b: &[u8]) -> (r: Self)
        requires
            RESP_EDID_LEN <= b@.len(),
        ensures
            r.wf(),
            r.hdr == VirtioGpuCtrlHdr::spec_read_at(b@, 0),
            r.size == spec_u32_from_le_bytes(b@.subrange(24, 28)),
            r.padding == spec_u32_from_le_bytes(b@.subrange(28, 32)),
            r.edid@ == b@.subrange(32, RESP_EDID_LEN as int),
    {
        let hdr = VirtioGpuCtrlHdr::read_at(b, 0);
        let size = read_u32_at(b, 24);
        let padding = read_u32_at(b, 28);
        let edid = slice_to_vec(slice_subrange(b, 32, RESP_EDID_LEN));
        VirtioGpuRespEDID { hdr, size, padding, edid }
    }
}

impl Default for VirtioGpuRespEDID {
    /// An empty response: a zeroed header, no meaningful bytes, and a
    /// zeroed descriptor buffer.
    fn default() -> (r: Self)
        ensures
            r.wf(),
            r.hdr == (VirtioGpuCtrlHdr { type_: 0, flags: 0, fence_id: 0, ctx_id: 0, ring_idx: 0 }),
            r.size == 0,
            r.padding == 0,
            forall|i: int| 0 <= i < EDID_BUFFER_LEN ==> r.edid@[i] == 0u8,
    {
        VirtioGpuRespEDID {
            hdr: VirtioGpuCtrlHdr { type_: 0, flags: 0, fence_id: 0, ctx_id: 0, ring_idx: 0 },
            size: 0,
            padding: 0,
            edid: zeroed_bytes(EDID_BUFFER_LEN),
        }
    }
}

/// Law: the EDID response's encoding is `RESP_EDID_LEN` bytes long, and
/// decoding it recovers the header, the size and the descriptor buffer.
pub proof fn lemma_edid_round_trip(e: VirtioGpuRespEDID)
    requires
        e.wf(),
    ensures
        e.wire_bytes().len() == RESP_EDID_LEN,
        VirtioGpuCtrlHdr::spec_read_at(e.wire_bytes(), 0) == e.hdr,
        spec_u32_from_le_bytes(e.wire_bytes().subrange(24, 28)) == e.size,
        spec_u32_from_le_bytes(e.wire_bytes().subrange(28, 32)) == e.padding,
        e.wire_bytes().subrange(32, RESP_EDID_LEN as int) == e.edid@,
{
    lemma_auto_spec_u32_to_from_le_bytes();
    lemma_hdr_round_trip(e.hdr);
    let b = e.wire_bytes();
    assert(b.subrange(0, HDR_LEN as int) =~= e.hdr.wire_bytes());
    lemma_hdr_read_extends(b, 0, e.hdr);
    assert(b.subrange(24, 28) =~= spec_u32_to_le_bytes(e.size));
    assert(b.subrange(28, 32) =~= spec_u32_to_le_bytes(e.padding));
    assert(b.subrange(32, RESP_EDID_LEN as int) =~= e.edid@);
}

// ---------------------------------------------------------------------------
// Context creation.
// ---------------------------------------------------------------------------

/// Capacity of the debug-name field in a context-creation request.
pub const DEBUG_NAME_LEN: usize = 64;

/// Mask of the capability-set id inside a context's init flags.
pub const VIRTIO_GPU_CONTEXT_INIT_CAPSET_ID_MASK: u32 = 0x000000ff;

/// Encoded length of a `VirtioGpuCtxCreate`.
pub const CREATE_CONTEXT_LEN: usize = 96;

/// Request to create a 3D submission context with a human-readable debug
/// name.
#[derive(Clone, Debug)]
pub struct VirtioGpuCtxCreate {
    pub hdr: VirtioGpuCtrlHdr,
    /// Number of meaningful bytes in `debug_name`.
    pub nlen: u32,
    pub context_init: u32,
    pub debug_name: Vec<u8>,
}

impl VirtioGpuCtxCreate {
    /// The name field always has its full fixed width.
    pub open spec fn wf(self) -> bool {
        self.debug_name@.len() == DEBUG_NAME_LEN
    }

    /// The exact byte layout of the request.
    pub open spec fn wire_bytes(self) -> Seq<u8> {
        self.hdr.wire_bytes() + spec_u32_to_le_bytes(self.nlen)
            + spec_u32_to_le_bytes(self.context_init) + self.debug_name@
    }

    /// Builds the request: the name is copied byte for byte into the fixed
    /// field, truncated to `DEBUG_NAME_LEN` bytes, and the rest of the field
    /// is zero; `nlen` records the copied length.
    pub fn new(ctx_id: u32, debug_name: &str, context_init: u32) -> (r: Self)
        ensures
            r.wf(),
            r.hdr == VirtioGpuCtrlHdr::spec_request_ctx(
                VirtioGpuCtrlType::VIRTIO_GPU_CMD_CTX_CREATE.spec_code(),
                ctx_id,
            ),
            r.context_init == context_init,
            r.nlen == if debug_name.spec_bytes().len() <= DEBUG_NAME_LEN {
                debug_name.spec_bytes().len() as int
            } else {
                DEBUG_NAME_LEN as int
            },
            forall|i: int| 0 <= i < r.nlen ==> r.debug_name@[i] == debug_name.spec_bytes()[i],
            forall|i: int| r.nlen <= i < DEBUG_NAME_LEN ==> r.debug_name@[i] == 0u8,
    {
        let name_bytes = debug_name.as_bytes();
        let nlen: usize = if name_bytes.len() < DEBUG_NAME_LEN {
            name_bytes.len()
        } else {
            DEBUG_NAME_LEN
        };
        let mut field: Vec<u8> = Vec::new();
        let mut i: usize = 0;
        while i < DEBUG_NAME_LEN
            invariant
                nlen <= DEBUG_NAME_LEN,
                nlen <= name_bytes@.len(),
                i <= DEBUG_NAME_LEN,
                field@.len() == i,
                forall|j: int| 0 <= j < i && j < nlen ==> field@[j] == name_bytes@[j],
                forall|j: int| nlen <= j < i ==> field@[j] == 0u8,
            decreases DEBUG_NAME_LEN - i,
        {
            if i < nlen {
                field.push(*slice_index_get(name_bytes, i));
            } else {
                field.push(0u8);
            }
            i = i + 1;
        }
        let hdr = VirtioGpuCtrlHdr::request(
            VirtioGpuCtrlType::VIRTIO_GPU_CMD_CTX_CREATE.code(),
            ctx_id,
        );
        VirtioGpuCtxCreate { hdr, nlen: nlen as u32, context_init, debug_name: field }
    }

    /// Serializes the request; the result is exactly `CREATE_CONTEXT_LEN`
    /// bytes.
    pub fn to_bytes(&self) -> (out: Vec<u8>)
        requires
            self.wf(),
        ensures
            out@ == self.wire_bytes(),
            out@.len() == CREATE_CONTEXT_LEN,
    {
        let mut out = self.hdr.to_bytes();
        push_u32(&mut out, self.nlen);
        push_u32(&mut out, self.context_init);
        let mut tail = slice_to_vec(self.debug_name.as_slice());
        out.append(&mut tail);
        proof {
            lemma_auto_spec_u32_to_from_le_bytes();
            assert(out@ =~= self.wire_bytes());
        }
        out
    }

    /// Recovers the request from the first `CREATE_CONTEXT_LEN` bytes of
    /// `b`.
    pub fn from_bytes(b: &[u8]) -> (r: Self)
        requires
            CREATE_CONTEXT_LEN <= b@.len(),
        ensures
            r.wf(),
            r.hdr == VirtioGpuCtrlHdr::spec_read_at(b@, 0),
            r.nlen == spec_u32_from_le_bytes(b@.subrange(24, 28)),
            r.context_init == spec_u32_from_le_bytes(b@.subrange(28, 32)),
            r.debug_name@ == b@.subrange(32, CREATE_CONTEXT_LEN as int),
    {
        let hdr = VirtioGpuCtrlHdr::read_at(b, 0);
        let nlen = read_u32_at(b, 24);
        let context_init = read_u32_at(b, 28);
        let debug_name = slice_to_vec(slice_subrange(b, 32, CREATE_CONTEXT_LEN));
        VirtioGpuCtxCreate { hdr, nlen, context_init, debug_name }
    }
}

/// Law: the context-creation request's encoding is `CREATE_CONTEXT_LEN`
/// bytes long, and decoding it recovers the header, the lengths and the
/// name field.
pub proof fn lemma_ctx_create_round_trip(c: VirtioGpuCtxCreate)
    requires
        c.wf(),
    ensures
        c.wire_bytes().len() == CREATE_CONTEXT_LEN,
        VirtioGpuCtrlHdr::spec_read_at(c.wire_bytes(), 0) == c.hdr,
        spec_u32_from_le_bytes(c.wire_bytes().subrange(24, 28)) == c.nlen,
        spec_u32_from_le_bytes(c.wire_bytes().subrange(28, 32)) == c.context_init,
        c.wire_bytes().subrange(32, CREATE_CONTEXT_LEN as int) == c.debug_name@,
{
    lemma_auto_spec_u32_to_from_le_bytes();
    lemma_hdr_round_trip(c.hdr);
    let b = c.wire_bytes();
    assert(b.subrange(0, HDR_LEN as int) =~= c.hdr.wire_bytes());
    lemma_hdr_read_extends(b, 0, c.hdr);
    assert(b.subrange(24, 28) =~= spec_u32_to_le_bytes(c.nlen));
    assert(b.subrange(28, 32) =~= spec_u32_to_le_bytes(c.context_init));
    assert(b.subrange(32, CREATE_CONTEXT_LEN as int) =~= c.debug_name@);
}

// ---------------------------------------------------------------------------
// Scanout binding.
// ---------------------------------------------------------------------------

/// Encoded length of a `VirtioGpuSetScanout`.
pub const SET_SCANOUT_LEN: usize = 48;

/// Request to bind a resource to a scanout over a rectangle.
#[derive(Clone, Copy, Debug, PartialEq, Eq, Structural)]
pub struct VirtioGpuSetScanout {
    pub hdr: VirtioGpuCtrlHdr,
    pub r: VirtioGpuRect,
    pub scanout_id: u32,
    pub resource_id: u32,
}

impl VirtioGpuSetScanout {
    /// The exact byte layout of the request.
    pub open spec fn wire_bytes(self) -> Seq<u8> {
        self.hdr.wire_bytes() + self.r.wire_bytes() + spec_u32_to_le_bytes(self.scanout_id)
            + spec_u32_to_le_bytes(self.resource_id)
    }

    /// The request whose encoding starts at byte `off` of `s`.
    pub open spec fn spec_read_at(s: Seq<u8>, off: int) -> Self {
        VirtioGpuSetScanout {
            hdr: VirtioGpuCtrlHdr::spec_read_at(s, off),
            r: VirtioGpuRect::spec_read_at(s, off + 24),
            scanout_id: spec_u32_from_le_bytes(s.subrange(off + 40, off + 44)),
            resource_id: spec_u32_from_le_bytes(s.subrange(off + 44, off + 48)),
        }
    }

    /// Serializes the request; the result is exactly `SET_SCANOUT_LEN` bytes.
    pub fn to_bytes(&self) -> (out: Vec<u8>)
        ensures
            out@ == self.wire_bytes(),
            out@.len() == SET_SCANOUT_LEN,
    {
        let mut out = self.hdr.to_bytes();
        self.r.push_bytes(&mut out);
        push_u32(&mut out, self.scanout_id);
        push_u32(&mut out, self.resource_id);
        proof {
            lemma_auto_spec_u32_to_from_le_bytes();
            lemma_rect_round_trip(self.r);
            assert(out@ =~= self.wire_bytes());
        }
        out
    }

    /// Recovers the request whose encoding starts at byte `off` of `b`.
    pub fn read_at(b: &[u8], off: usize) -> (r: Self)
        requires
            off + SET_SCANOUT_LEN <= b@.len(),
        ensures
            r == Self::spec_read_at(b@, off as int),
    {
        let len = b.len();
        assert(off + SET_SCANOUT_LEN <= len);
        let hdr = VirtioGpuCtrlHdr::read_at(b, off);
        let rect = VirtioGpuRect::read_at(b, off + 24);
        let scanout_id = read_u32_at(b, off + 40);
        let resource_id = read_u32_at(b, off + 44);
        VirtioGpuSetScanout { hdr, r: rect, scanout_id, resource_id }
    }
}

/// Law: the scanout request's encoding is `SET_SCANOUT_LEN` bytes long, and
/// decoding it recovers the request, field for field.
pub proof fn lemma_set_scanout_round_trip(s: VirtioGpuSetScanout)
    ensures
        s.wire_bytes().len() == SET_SCANOUT_LEN,
        VirtioGpuSetScanout::spec_read_at(s.wire_bytes(), 0) == s,
{
    lemma_auto_spec_u32_to_from_le_bytes();
    lemma_hdr_round_trip(s.hdr);
    lemma_rect_round_trip(s.r);
    let b = s.wire_bytes();
    assert(b.subrange(0, HDR_LEN as int) =~= s.hdr.wire_bytes());
    lemma_hdr_read_extends(b, 0, s.hdr);
    assert(b.subrange(24, 40) =~= s.r.wire_bytes());
    lemma_rect_read_extends(b, 24, s.r);
    assert(b.subrange(40, 44) =~= spec_u32_to_le_bytes(s.scanout_id));
    assert(b.subrange(44, 48) =~= spec_u32_to_le_bytes(s.resource_id));
}

// ---------------------------------------------------------------------------
// Pixel transfer.
// ---------------------------------------------------------------------------

/// Encoded length of a `VirtioGpuTransferToHost2d`.
pub const TRANSFER_TO_HOST_LEN: usize = 56;

/// Request to transfer pixel data from backing memory to the host resource.
#[derive(Clone, Copy, Debug, PartialEq, Eq, Structural)]
pub struct VirtioGpuTransferToHost2d {
    pub hdr: VirtioGpuCtrlHdr,
    pub r: VirtioGpuRect,
    pub offset: u64,
    pub resource_id: u32,
    pub padding: u32,
}

impl VirtioGpuTransferToHost2d {
    /// The exact byte layout of the request.
    pub open spec fn wire_bytes(self) -> Seq<u8> {
        self.hdr.wire_bytes() + self.r.wire_bytes() + spec_u64_to_le_bytes(self.offset)
            + spec_u32_to_le_bytes(self.resource_id) + spec_u32_to_le_bytes(self.padding)
    }

    /// The request whose encoding starts at byte `off` of `s`.
    pub open spec fn spec_read_at(s: Seq<u8>, off: int) -> Self {
        VirtioGpuTransferToHost2d {
            hdr: VirtioGpuCtrlHdr::spec_read_at(s, off),
            r: VirtioGpuRect::spec_read_at(s, off + 24),
            offset: spec_u64_from_le_bytes(s.subrange(off + 40, off + 48)),
            resource_id: spec_u32_from_le_bytes(s.subrange(off + 48, off + 52)),
            padding: spec_u32_from_le_bytes(s.subrange(off + 52, off + 56)),
        }
    }

    /// Serializes the request; the result is exactly `TRANSFER_TO_HOST_LEN`
    /// bytes.
    pub fn to_bytes(&self) -> (out: Vec<u8>)
        ensures
            out@ == self.wire_bytes(),
            out@.len() == TRANSFER_TO_HOST_LEN,
    {
        let mut out = self.hdr.to_bytes();
        self.r.push_bytes(&mut out);
        push_u64(&mut out, self.offset);
        push_u32(&mut out, self.resource_id);
        push_u32(&mut out, self.padding);
        proof {
            lemma_auto_spec_u32_to_from_le_bytes();
            lemma_auto_spec_u64_to_from_le_bytes();
            lemma_rect_round_trip(self.r);
            assert(out@ =~= self.wire_bytes());
        }
        out
    }

    /// Recovers the request whose encoding starts at byte `off` of `b`.
    pub fn read_at(b: &[u8], off: usize) -> (r: Self)
        requires
            off + TRANSFER_TO_HOST_LEN <= b@.len(),
        ensures
            r == Self::spec_read_at(b@, off as int),
    {
        let len = b.len();
        assert(off + TRANSFER_TO_HOST_LEN <= len);
        let hdr = VirtioGpuCtrlHdr::read_at(b, off);
        let rect = VirtioGpuRect::read_at(b, off + 24);
        let offset = read_u64_at(b, off + 40);
        let resource_id = read_u32_at(b, off + 48);
        let padding = read_u32_at(b, off + 52);
        VirtioGpuTransferToHost2d { hdr, r: rect, offset, resource_id, padding }
    }
}

/// Law: the transfer request's encoding is `TRANSFER_TO_HOST_LEN` bytes
/// long, and decoding it recovers the request, field for field.
pub proof fn lemma_transfer_to_host_round_trip(t: VirtioGpuTransferToHost2d)
    ensures
        t.wire_bytes().len() == TRANSFER_TO_HOST_LEN,
        VirtioGpuTransferToHost2d::spec_read_at(t.wire_bytes(), 0) == t,
{
    lemma_auto_spec_u32_to_from_le_bytes();
    lemma_auto_spec_u64_to_from_le_bytes();
    lemma_hdr_round_trip(t.hdr);
    lemma_rect_round_trip(t.r);
    let b = t.wire_bytes();
    assert(b.subrange(0, HDR_LEN as int) =~= t.hdr.wire_bytes());
    lemma_hdr_read_extends(b, 0, t.hdr);
    assert(b.subrange(24, 40) =~= t.r.wire_bytes());
    lemma_rect_read_extends(b, 24, t.r);
    assert(b.subrange(40, 48) =~= spec_u64_to_le_bytes(t.offset));
    assert(b.subrange(48, 52) =~= spec_u32_to_le_bytes(t.resource_id));
    assert(b.subrange(52, 56) =~= spec_u32_to_le_bytes(t.padding));
}

// ---------------------------------------------------------------------------
// Resource flush.
// ---------------------------------------------------------------------------

/// Encoded length of a `VirtioGpuResourceFlush`.
pub const FLUSH_RESOURCE_LEN: usize = 48;

/// Request to flush a resource's rectangle to the display.
#[derive(Clone, Copy, Debug, PartialEq, Eq, Structural)]
pub struct VirtioGpuResourceFlush {
    pub hdr: VirtioGpuCtrlHdr,
    pub r: VirtioGpuRect,
    pub resource_id: u32,
    pub padding: u32,
}

impl VirtioGpuResourceFlush {
    /// The exact byte layout of the request.
    pub open spec fn wire_bytes(self) -> Seq<u8> {
        self.hdr.wire_bytes() + self.r.wire_bytes() + spec_u32_to_le_bytes(self.resource_id)
            + spec_u32_to_le_bytes(self.padding)
    }

    /// The request whose encoding starts at byte `off` of `s`.
    pub open spec fn spec_read_at(s: Seq<u8>, off: int) -> Self {
        VirtioGpuResourceFlush {
            hdr: VirtioGpuCtrlHdr::spec_read_at(s, off),
            r: VirtioGpuRect::spec_read_at(s, off + 24),
            resource_id: spec_u32_from_le_bytes(s.subrange(off + 40, off + 44)),
            padding: spec_u32_from_le_bytes(s.subrange(off + 44, off + 48)),
        }
    }

    /// Serializes the request; the result is exactly `FLUSH_RESOURCE_LEN`
    /// bytes.
    pub fn to_bytes(&self) -> (out: Vec<u8>)
        ensures
            out@ == self.wire_bytes(),
            out@.len() == FLUSH_RESOURCE_LEN,
    {
        let mut out = self.hdr.to_bytes();
        self.r.push_bytes(&mut out);
        push_u32(&mut out, self.resource_id);
        push_u32(&mut out, self.padding);
        proof {
            lemma_auto_spec_u32_to_from_le_bytes();
            lemma_rect_round_trip(self.r);
            assert(out@ =~= self.wire_bytes());
        }
        out
    }

    /// Recovers the request whose encoding starts at byte `off` of `b`.
    pub fn read_at(b: &[u8], off: usize) -> (r: Self)
        requires
            off + FLUSH_RESOURCE_LEN <= b@.len(),
        ensures
            r == Self::spec_read_at(b@, off as int),
    {
        let len = b.len();
        assert(off + FLUSH_RESOURCE_LEN <= len);
        let hdr = VirtioGpuCtrlHdr::read_at(b, off);
        let rect = VirtioGpuRect::read_at(b, off + 24);
        let resource_id = read_u32_at(b, off + 40);
        let padding = read_u32_at(b, off + 44);
        VirtioGpuResourceFlush { hdr, r: rect, resource_id, padding }
    }
}

/// Law: the flush request's encoding is `FLUSH_RESOURCE_LEN` bytes long, and
/// decoding it recovers the request, field for field.
pub proof fn lemma_flush_round_trip(f: VirtioGpuResourceFlush)
    ensures
        f.wire_bytes().len() == FLUSH_RESOURCE_LEN,
        VirtioGpuResourceFlush::spec_read_at(f.wire_bytes(), 0) == f,
{
    lemma_auto_spec_u32_to_from_le_bytes();
    lemma_hdr_round_trip(f.hdr);
    lemma_rect_round_trip(f.r);
    let b = f.wire_bytes();
    assert(b.subrange(0, HDR_LEN as int) =~= f.hdr.wire_bytes());
    lemma_hdr_read_extends(b, 0, f.hdr);
    assert(b.subrange(24, 40) =~= f.r.wire_bytes());
    lemma_rect_read_extends(b, 24, f.r);
    assert(b.subrange(40, 44) =~= spec_u32_to_le_bytes(f.resource_id));
    assert(b.subrange(44, 48) =~= spec_u32_to_le_bytes(f.padding));
}

// ---------------------------------------------------------------------------
// Blob mapping.
// ---------------------------------------------------------------------------

/// Encoded length of a `VirtioGpuResourceMapBlob`.
pub const MAP_BLOB_LEN: usize = 40;

/// Request to map a blob resource at a byte offset; the 3D transfer commands
/// share this layout.
#[derive(Clone, Copy, Debug, PartialEq, Eq, Structural)]
pub struct VirtioGpuResourceMapBlob {
    pub hdr: VirtioGpuCtrlHdr,
    pub resource_id: u32,
    pub padding: u32,
    pub offset: u64,
}

impl VirtioGpuResourceMapBlob {
    /// The exact byte layout of the request.
    pub open spec fn wire_bytes(self) -> Seq<u8> {
        self.hdr.wire_bytes() + spec_u32_to_le_bytes(self.resource_id)
            + spec_u32_to_le_bytes(self.padding) + spec_u64_to_le_bytes(self.offset)
    }

    /// The request whose encoding starts at byte `off` of `s`.
    pub open spec fn spec_read_at(s: Seq<u8>, off: int) -> Self {
        VirtioGpuResourceMapBlob {
            hdr: VirtioGpuCtrlHdr::spec_read_at(s, off),
            resource_id: spec_u32_from_le_bytes(s.subrange(off + 24, off + 28)),
            padding: spec_u32_from_le_bytes(s.subrange(off + 28, off + 32)),
            offset: spec_u64_from_le_bytes(s.subrange(off + 32, off + 40)),
        }
    }

    /// Serializes the request; the result is exactly `MAP_BLOB_LEN` bytes.
    pub fn to_bytes(&self) -> (out: Vec<u8>)
        ensures
            out@ == self.wire_bytes(),
            out@.len() == MAP_BLOB_LEN,
    {
        let mut out = self.hdr.to_bytes();
        push_u32(&mut out, self.resource_id);
        push_u32(&mut out, self.padding);
        push_u64(&mut out, self.offset);
        proof {
            lemma_auto_spec_u32_to_from_le_bytes();
            lemma_auto_spec_u64_to_from_le_bytes();
            assert(out@ =~= self.wire_bytes());
        }
        out
    }

    /// Recovers the request whose encoding starts at byte `off` of `b`.
    pub fn read_at(b: &[u8], off: usize) -> (r: Self)
        requires
            off + MAP_BLOB_LEN <= b@.len(),
        ensures
            r == Self::spec_read_at(b@, off as int),
    {
        let len = b.len();
        assert(off + MAP_BLOB_LEN <= len);
        let hdr = VirtioGpuCtrlHdr::read_at(b, off);
        let resource_id = read_u32_at(b, off + 24);
        let padding = read_u32_at(b, off + 28);
        let offset = read_u64_at(b, off + 32);
        VirtioGpuResourceMapBlob { hdr, resource_id, padding, offset }
    }
}

/// Law: the blob-map request's encoding is `MAP_BLOB_LEN` bytes long, and
/// decoding it recovers the request, field for field.
pub proof fn lemma_map_blob_round_trip(m: VirtioGpuResourceMapBlob)
    ensures
        m.wire_bytes().len() == MAP_BLOB_LEN,
        VirtioGpuResourceMapBlob::spec_read_at(m.wire_bytes(), 0) == m,
{
    lemma_auto_spec_u32_to_from_le_bytes();
    lemma_auto_spec_u64_to_from_le_bytes();
    lemma_hdr_round_trip(m.hdr);
    let b = m.wire_bytes();
    assert(b.subrange(0, HDR_LEN as int) =~= m.hdr.wire_bytes());
    lemma_hdr_read_extends(b, 0, m.hdr);
    assert(b.subrange(24, 28) =~= spec_u32_to_le_bytes(m.resource_id));
    assert(b.subrange(28, 32) =~= spec_u32_to_le_bytes(m.padding));
    assert(b.subrange(32, 40) =~= spec_u64_to_le_bytes(m.offset));
}

/// Encoded length of a `VirtioGpuRespMapInfo`.
pub const MAP_INFO_LEN: usize = 32;

/// Response to a blob-map request, carrying the mapping's cache attributes.
#[derive(Clone, Copy, Debug, PartialEq, Eq, Structural)]
pub struct VirtioGpuRespMapInfo {
    pub hdr: VirtioGpuCtrlHdr,
    pub map_info: u32,
    pub padding: u32,
}

impl VirtioGpuRespMapInfo {
    /// The exact byte layout of the response.
    pub open spec fn wire_bytes(self) -> Seq<u8> {
        self.hdr.wire_bytes() + spec_u32_to_le_bytes(self.map_info)
            + spec_u32_to_le_bytes(self.padding)
    }

    /// The response whose encoding starts at byte `off` of `s`.
    pub open spec fn spec_read_at(s: Seq<u8>, off: int) -> Self {
        VirtioGpuRespMapInfo {
            hdr: VirtioGpuCtrlHdr::spec_read_at(s, off),
            map_info: spec_u32_from_le_bytes(s.subrange(off + 24, off + 28)),
            padding: spec_u32_from_le_bytes(s.subrange(off + 28, off + 32)),
        }
    }

    /// Serializes the response; the result is exactly `MAP_INFO_LEN` bytes.
    pub fn to_bytes(&self) -> (out: Vec<u8>)
        ensures
            out@ == self.wire_bytes(),
            out@.len() == MAP_INFO_LEN,
    {
        let mut out = self.hdr.to_bytes();
        push_u32(&mut out, self.map_info);
        push_u32(&mut out, self.padding);
        proof {
            lemma_auto_spec_u32_to_from_le_bytes();
            assert(out@ =~= self.wire_bytes());
        }
        out
    }

    /// Recovers the response whose encoding starts at byte `off` of `b`.
    pub fn read_at(b: &[u8], off: usize) -> (r: Self)
        requires
            off + MAP_INFO_LEN <= b@.len(),
        ensures
            r == Self::spec_read_at(b@, off as int),
    {
        let len = b.len();
        assert(off + MAP_INFO_LEN <= len);
        let hdr = VirtioGpuCtrlHdr::read_at(b, off);
        let map_info = read_u32_at(b, off + 24);
        let padding = read_u32_at(b, off + 28);
        VirtioGpuRespMapInfo { hdr, map_info, padding }
    }
}

/// Law: the map-info response's encoding is `MAP_INFO_LEN` bytes long, and
/// decoding it recovers the response, field for field.
pub proof fn lemma_map_info_round_trip(m: VirtioGpuRespMapInfo)
    ensures
        m.wire_bytes().len() == MAP_INFO_LEN,
        VirtioGpuRespMapInfo::spec_read_at(m.wire_bytes(), 0) == m,
{
    lemma_auto_spec_u32_to_from_le_bytes();
    lemma_hdr_round_trip(m.hdr);
    let b = m.wire_bytes();
    assert(b.subrange(0, HDR_LEN as int) =~= m.hdr.wire_bytes());
    lemma_hdr_read_extends(b, 0, m.hdr);
    assert(b.subrange(24, 28) =~= spec_u32_to_le_bytes(m.map_info));
    assert(b.subrange(28, 32) =~= spec_u32_to_le_bytes(m.padding));
}

/// Encoded length of a `VirtioGpuResourceUnmapBlob`.
pub const UNMAP_BLOB_LEN: usize = 32;

/// Request to unmap a blob resource.
#[derive(Clone, Copy, Debug, PartialEq, Eq, Structural)]
pub struct VirtioGpuResourceUnmapBlob {
    pub hdr: VirtioGpuCtrlHdr,
    pub resource_id: u32,
    pub padding: u32,
}

impl VirtioGpuResourceUnmapBlob {
    /// The exact byte layout of the request.
    pub open spec fn wire_bytes(self) -> Seq<u8> {
        self.hdr.wire_bytes() + spec_u32_to_le_bytes(self.resource_id)
            + spec_u32_to_le_bytes(self.padding)
    }

    /// The request whose encoding starts at byte `off` of `s`.
    pub open spec fn spec_read_at(s: Seq<u8>, off: int) -> Self {
        VirtioGpuResourceUnmapBlob {
            hdr: VirtioGpuCtrlHdr::spec_read_at(s, off),
            resource_id: spec_u32_from_le_bytes(s.subrange(off + 24, off + 28)),
            padding: spec_u32_from_le_bytes(s.subrange(off + 28, off + 32)),
        }
    }

    /// Serializes the request; the result is exactly `UNMAP_BLOB_LEN` bytes.
    pub fn to_bytes(&self) -> (out: Vec<u8>)
        ensures
            out@ == self.wire_bytes(),
            out@.len() == UNMAP_BLOB_LEN,
    {
        let mut out = self.hdr.to_bytes();
        push_u32(&mut out, self.resource_id);
        push_u32(&mut out, self.padding);
        proof {
            lemma_auto_spec_u32_to_from_le_bytes();
            assert(out@ =~= self.wire_bytes());
        }
        out
    }

    /// Recovers the request whose encoding starts at byte `off` of `b`.
    pub fn read_at(b: &[u8], off: usize) -> (r: Self)
        requires
            off + UNMAP_BLOB_LEN <= b@.len(),
        ensures
            r == Self::spec_read_at(b@, off as int),
    {
        let len = b.len();
        assert(off + UNMAP_BLOB_LEN <= len);
        let hdr = VirtioGpuCtrlHdr::read_at(b, off);
        let resource_id = read_u32_at(b, off + 24);
        let padding = read_u32_at(b, off + 28);
        VirtioGpuResourceUnmapBlob { hdr, resource_id, padding }
    }
}

/// Law: the blob-unmap request's encoding is `UNMAP_BLOB_LEN` bytes long,
/// and decoding it recovers the request, field for field.
pub proof fn lemma_unmap_blob_round_trip(u: VirtioGpuResourceUnmapBlob)
    ensures
        u.wire_bytes().len() == UNMAP_BLOB_LEN,
        VirtioGpuResourceUnmapBlob::spec_read_at(u.wire_bytes(), 0) == u,
{
    lemma_auto_spec_u32_to_from_le_bytes();
    lemma_hdr_round_trip(u.hdr);
    let b = u.wire_bytes();
    assert(b.subrange(0, HDR_LEN as int) =~= u.hdr.wire_bytes());
    lemma_hdr_read_extends(b, 0, u.hdr);
    assert(b.subrange(24, 28) =~= spec_u32_to_le_bytes(u.resource_id));
    assert(b.subrange(28, 32) =~= spec_u32_to_le_bytes(u.padding));
}

// ---------------------------------------------------------------------------
// Cursor plane.
// ---------------------------------------------------------------------------

/// Encoded length of a `VirtioGpuCursorPos`.
pub const CURSOR_POS_LEN: usize = 16;

/// Cursor position on one scanout.
#[derive(Clone, Copy, Debug, PartialEq, Eq, Structural)]
pub struct VirtioGpuCursorPos {
    pub scanout_id: u32,
    pub x: u32,
    pub y: u32,
    pub padding: u32,
}

impl VirtioGpuCursorPos {
    /// The exact byte layout of the position.
    pub open spec fn wire_bytes(self) -> Seq<u8> {
        spec_u32_to_le_bytes(self.scanout_id) + spec_u32_to_le_bytes(self.x)
            + spec_u32_to_le_bytes(self.y) + spec_u32_to_le_bytes(self.padding)
    }

    /// The position whose encoding starts at byte `off` of `s`.
    pub open spec fn spec_read_at(s: Seq<u8>, off: int) -> Self {
        VirtioGpuCursorPos {
            scanout_id: spec_u32_from_le_bytes(s.subrange(off, off + 4)),
            x: spec_u32_from_le_bytes(s.subrange(off + 4, off + 8)),
            y: spec_u32_from_le_bytes(s.subrange(off + 8, off + 12)),
            padding: spec_u32_from_le_bytes(s.subrange(off + 12, off + 16)),
        }
    }

    /// Appends the position's encoding to `out`.
    pub fn push_bytes(&self, out: &mut Vec<u8>)
        ensures
            final(out)@ == old(out)@ + self.wire_bytes(),
    {
        push_u32(out, self.scanout_id);
        push_u32(out, self.x);
        push_u32(out, self.y);
        push_u32(out, self.padding);
        proof {
            assert(out@ =~= old(out)@ + self.wire_bytes());
        }
    }

    /// Serializes the position; the result is exactly `CURSOR_POS_LEN` bytes.
    pub fn to_bytes(&self) -> (out: Vec<u8>)
        ensures
            out@ == self.wire_bytes(),
            out@.len() == CURSOR_POS_LEN,
    {
        let mut out: Vec<u8> = Vec::new();
        self.push_bytes(&mut out);
        proof {
            lemma_auto_spec_u32_to_from_le_bytes();
            assert(out@ =~= self.wire_bytes());
        }
        out
    }

    /// Recovers the position whose encoding starts at byte `off` of `b`.
    pub fn read_at(b: &[u8], off: usize) -> (r: Self)
        requires
            off + CURSOR_POS_LEN <= b@.len(),
        ensures
            r == Self::spec_read_at(b@, off as int),
    {
        let len = b.len();
        assert(off + CURSOR_POS_LEN <= len);
        let scanout_id = read_u32_at(b, off);
        let x = read_u32_at(b, off + 4);
        let y = read_u32_at(b, off + 8);
        let padding = read_u32_at(b, off + 12);
        VirtioGpuCursorPos { scanout_id, x, y, padding }
    }
}

/// Law: the cursor position's encoding is `CURSOR_POS_LEN` bytes long, and
/// decoding it recovers the position, field for field.
pub proof fn lemma_cursor_pos_round_trip(p: VirtioGpuCursorPos)
    ensures
        p.wire_bytes().len() == CURSOR_POS_LEN,
        VirtioGpuCursorPos::spec_read_at(p.wire_bytes(), 0) == p,
{
    lemma_auto_spec_u32_to_from_le_bytes();
    let b = p.wire_bytes();
    assert(b.subrange(0, 4) =~= spec_u32_to_le_bytes(p.scanout_id));
    assert(b.subrange(4, 8) =~= spec_u32_to_le_bytes(p.x));
    assert(b.subrange(8, 12) =~= spec_u32_to_le_bytes(p.y));
    assert(b.subrange(12, 16) =~= spec_u32_to_le_bytes(p.padding));
}

/// Reading a cursor position out of a larger buffer that holds its encoding
/// at `off` recovers the position.
proof fn lemma_cursor_pos_read_extends(b: Seq<u8>, off: int, p: VirtioGpuCursorPos)
    requires
        0 <= off,
        off + CURSOR_POS_LEN <= b.len(),
        b.subrange(off, off + CURSOR_POS_LEN) == p.wire_bytes(),
    ensures
        VirtioGpuCursorPos::spec_read_at(b, off) == p,
{
    lemma_cursor_pos_round_trip(p);
    let w = p.wire_bytes();
    assert(b.subrange(off, off + 4) =~= w.subrange(0, 4));
    assert(b.subrange(off + 4, off + 8) =~= w.subrange(4, 8));
    assert(b.subrange(off + 8, off + 12) =~= w.subrange(8, 12));
    assert(b.subrange(off + 12, off + 16) =~= w.subrange(12, 16));
}

/// Encoded length of a `VirtioGpuUpdateCursor`.
pub const UPDATE_CURSOR_LEN: usize = 56;

/// Request to update or move the cursor plane; a move leaves the image
/// fields zero.
#[derive(Clone, Copy, Debug, PartialEq, Eq, Structural)]
pub struct VirtioGpuUpdateCursor {
    pub hdr: VirtioGpuCtrlHdr,
    pub pos: VirtioGpuCursorPos,
    /// Backing image; zero means "no image, move only".
    pub resource_id: u32,
    pub hot_x: u32,
    pub hot_y: u32,
    pub padding: u32,
}

impl VirtioGpuUpdateCursor {
    /// The exact byte layout of the request.
    pub open spec fn wire_bytes(self) -> Seq<u8> {
        self.hdr.wire_bytes() + self.pos.wire_bytes() + spec_u32_to_le_bytes(self.resource_id)
            + spec_u32_to_le_bytes(self.hot_x) + spec_u32_to_le_bytes(self.hot_y)
            + spec_u32_to_le_bytes(self.padding)
    }

    /// The request whose encoding starts at byte `off` of `s`.
    pub open spec fn spec_read_at(s: Seq<u8>, off: int) -> Self {
        VirtioGpuUpdateCursor {
            hdr: VirtioGpuCtrlHdr::spec_read_at(s, off),
            pos: VirtioGpuCursorPos::spec_read_at(s, off + 24),
            resource_id: spec_u32_from_le_bytes(s.subrange(off + 40, off + 44)),
            hot_x: spec_u32_from_le_bytes(s.subrange(off + 44, off + 48)),
            hot_y: spec_u32_from_le_bytes(s.subrange(off + 48, off + 52)),
            padding: spec_u32_from_le_bytes(s.subrange(off + 52, off + 56)),
        }
    }

    /// Serializes the request; the result is exactly `UPDATE_CURSOR_LEN`
    /// bytes.
    pub fn to_bytes(&self) -> (out: Vec<u8>)
        ensures
            out@ == self.wire_bytes(),
            out@.len() == UPDATE_CURSOR_LEN,
    {
        let mut out = self.hdr.to_bytes();
        self.pos.push_bytes(&mut out);
        push_u32(&mut out, self.resource_id);
        push_u32(&mut out, self.hot_x);
        push_u32(&mut out, self.hot_y);
        push_u32(&mut out, self.padding);
        proof {
            lemma_auto_spec_u32_to_from_le_bytes();
            lemma_cursor_pos_round_trip(self.pos);
            assert(out@ =~= self.wire_bytes());
        }
        out
    }

    /// Recovers the request whose encoding starts at byte `off` of `b`.
    pub fn read_at(b: &[u8], off: usize) -> (r: Self)
        requires
            off + UPDATE_CURSOR_LEN <= b@.len(),
        ensures
            r == Self::spec_read_at(b@, off as int),
    {
        let len = b.len();
        assert(off + UPDATE_CURSOR_LEN <= len);
        let hdr = VirtioGpuCtrlHdr::read_at(b, off);
        let pos = VirtioGpuCursorPos::read_at(b, off + 24);
        let resource_id = read_u32_at(b, off + 40);
        let hot_x = read_u32_at(b, off + 44);
        let hot_y = read_u32_at(b, off + 48);
        let padding = read_u32_at(b, off + 52);
        VirtioGpuUpdateCursor { hdr, pos, resource_id, hot_x, hot_y, padding }
    }
}

/// Law: the cursor request's encoding is `UPDATE_CURSOR_LEN` bytes long, and
/// decoding it recovers the request, field for field.
pub proof fn lemma_update_cursor_round_trip(c: VirtioGpuUpdateCursor)
    ensures
        c.wire_bytes().len() == UPDATE_CURSOR_LEN,
        VirtioGpuUpdateCursor::spec_read_at(c.wire_bytes(), 0) == c,
{
    lemma_auto_spec_u32_to_from_le_bytes();
    lemma_hdr_round_trip(c.hdr);
    lemma_cursor_pos_round_trip(c.pos);
    let b = c.wire_bytes();
    assert(b.subrange(0, HDR_LEN as int) =~= c.hdr.wire_bytes());
    lemma_hdr_read_extends(b, 0, c.hdr);
    assert(b.subrange(24, 40) =~= c.pos.wire_bytes());
    lemma_cursor_pos_read_extends(b, 24, c.pos);
    assert(b.subrange(40, 44) =~= spec_u32_to_le_bytes(c.resource_id));
    assert(b.subrange(44, 48) =~= spec_u32_to_le_bytes(c.hot_x));
    assert(b.subrange(48, 52) =~= spec_u32_to_le_bytes(c.hot_y));
    assert(b.subrange(52, 56) =~= spec_u32_to_le_bytes(c.padding));
}

} // verus!
