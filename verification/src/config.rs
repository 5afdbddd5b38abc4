//! The device's configuration block.
//!
//! The block is a register window of four 32-bit fields.  Reading the live
//! registers is outside work: the surrounding driver captures the window
//! into a `ConfigManager` and `read_config` decodes it field by field, each
//! field a 4-byte aligned access at its declared offset.

use vstd::bytes::*;
use vstd::prelude::*;

use crate::header::read_u32_at;

verus! {

/// Feature bit: the device supports 3D (virgl) commands.
pub const VIRTIO_GPU_F_VIRGL: u64 = 1;

/// Feature bit: the device answers EDID queries.
pub const VIRTIO_GPU_F_EDID: u64 = 2;

/// Feature bit: resources can be assigned UUIDs.
pub const VIRTIO_GPU_F_RESOURCE_UUID: u64 = 4;

/// Feature bit: blob resources are supported.
pub const VIRTIO_GPU_F_RESOURCE_BLOB: u64 = 8;

/// Feature bit: context creation takes init flags.
pub const VIRTIO_GPU_F_CONTEXT_INIT: u64 = 16;

/// Event bit of `events_read`: the display configuration changed.
pub const VIRTIO_GPU_EVENT_DISPLAY: u32 = 1;

/// Size in bytes of the configuration window.
pub const CONFIG_LEN: usize = 16;

/// Byte offset of `events_read` in the configuration window.
pub const CONFIG_EVENTS_READ_OFFSET: usize = 0;

/// Byte offset of `events_clear` in the configuration window.
pub const CONFIG_EVENTS_CLEAR_OFFSET: usize = 4;

/// Byte offset of `num_scanouts` in the configuration window.
pub const CONFIG_NUM_SCANOUTS_OFFSET: usize = 8;

/// Byte offset of `num_capsets` in the configuration window.
pub const CONFIG_NUM_CAPSETS_OFFSET: usize = 12;

/// The device's live configuration: pending events, how to clear them, and
/// how many scanouts and capability sets the device offers.
#[derive(Clone, Copy, Debug, PartialEq, Eq, Structural)]
pub struct VirtioGPUConfig {
    /// Pending device events; read-only to the driver.
    pub events_read: u32,
    /// Write a bit here to clear the matching pending event.
    pub events_clear: u32,
    /// Number of display outputs, between 1 and 16.
    pub num_scanouts: u32,
    /// Number of capability sets.
    pub num_capsets: u32,
}

/// Access to the device's configuration window.  The window bytes are a
/// capture of the register space taken by the surrounding driver; every
/// decode walks the capture field by field, nothing is cached across
/// captures.
#[derive(Clone, Debug)]
pub struct ConfigManager {
    /// A capture of the configuration register window.
    pub window: Vec<u8>,
}

impl ConfigManager {
    /// The window covers at least the four declared fields.
    pub open spec fn wf(self) -> bool {
        self.window@.len() >= CONFIG_LEN
    }

    /// The window bytes the manager reads from.
    pub open spec fn window_bytes(self) -> Seq<u8> {
        self.window@
    }

    /// Wraps a capture of the device's configuration register window.
    pub fn new(window: Vec<u8>) -> (r: Self)
        requires
            window@.len() >= CONFIG_LEN,
        ensures
            r.wf(),
            r.window_bytes() == window@,
    {
        ConfigManager { window }
    }

    /// Decodes the configuration block, one aligned 32-bit field at a time,
    /// from the captured window.
    pub fn read_config(&self) -> (r: VirtioGPUConfig)
        requires
            self.wf(),
        ensures
            r.events_read == spec_u32_from_le_bytes(self.window_bytes().subrange(0, 4)),
            r.events_clear == spec_u32_from_le_bytes(self.window_bytes().subrange(4, 8)),
            r.num_scanouts == spec_u32_from_le_bytes(self.window_bytes().subrange(8, 12)),
            r.num_capsets == spec_u32_from_le_bytes(self.window_bytes().subrange(12, 16)),
    {
        let events_read = read_u32_at(self.window.as_slice(), CONFIG_EVENTS_READ_OFFSET);
        let events_clear = read_u32_at(self.window.as_slice(), CONFIG_EVENTS_CLEAR_OFFSET);
        let num_scanouts = read_u32_at(self.window.as_slice(), CONFIG_NUM_SCANOUTS_OFFSET);
        let num_capsets = read_u32_at(self.window.as_slice(), CONFIG_NUM_CAPSETS_OFFSET);
        VirtioGPUConfig { events_read, events_clear, num_scanouts, num_capsets }
    }
}

} // verus!
