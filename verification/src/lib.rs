//! Driver-side engine for a paravirtualized GPU device.
//!
//! The crate models the device protocol: fixed-layout wire structures with a
//! byte-exact encoding, the catalog of command and response type codes, the
//! configuration block, and a protocol engine that exchanges one request and
//! one response per command over two channels (control and cursor).  The
//! virtual-queue doorbell, the DMA mapping and the busy-poll on the used ring
//! are outside work: the engine exposes a submit half and a completion half
//! for every command, and an unverified driver loop performs the device side
//! in between and hands the response bytes back.
//!
//! A frame allocator and a task model from the surrounding kernel sources are
//! kept in their own modules; they share no state with the protocol engine.

pub mod config;
pub mod device;
pub mod frame_allocator;
pub mod header;
pub mod queue;
pub mod task;

use vstd::prelude::*;

verus! {

/// A vector of `n` zero bytes: fresh DMA buffers and zeroed pages start
/// from it.
pub fn zeroed_bytes(n: usize) -> (r: Vec<u8>)
    ensures
        r@.len() == n,
        forall|i: int| 0 <= i < n ==> r@[i] == 0u8,
{
    let mut out: Vec<u8> = Vec::new();
    let mut i: usize = 0;
    while i < n
        invariant
            i <= n,
            out@.len() == i,
            forall|j: int| 0 <= j < i ==> out@[j] == 0u8,
        decreases n - i,
    {
        out.push(0u8);
        i = i + 1;
    }
    out
}

} // verus!
