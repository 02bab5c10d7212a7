//! Bit masks of the graphics API and the subset test on them.

use vstd::prelude::*;

verus! {

/// Queue family capability: graphics operations.
pub const QUEUE_GRAPHICS: u32 = 0x1;

/// Queue family capability: compute operations.
pub const QUEUE_COMPUTE: u32 = 0x2;

/// Queue family capability: transfer operations.
pub const QUEUE_TRANSFER: u32 = 0x4;

/// Memory property: the memory lives on the device.
pub const MEMORY_DEVICE_LOCAL: u32 = 0x1;

/// Memory property: the host can map the memory.
pub const MEMORY_HOST_VISIBLE: u32 = 0x2;

/// Memory property: host writes need no explicit flush.
pub const MEMORY_HOST_COHERENT: u32 = 0x4;

/// Pipeline stage at which depth tests run before the fragment shader.
pub const STAGE_EARLY_FRAGMENT_TESTS: u32 = 0x100;

/// Pipeline stage that writes the final colour values.
pub const STAGE_COLOR_ATTACHMENT_OUTPUT: u32 = 0x400;

/// Access: write to a colour attachment.
pub const ACCESS_COLOR_ATTACHMENT_WRITE: u32 = 0x100;

/// Access: write to a depth or stencil attachment.
pub const ACCESS_DEPTH_STENCIL_ATTACHMENT_WRITE: u32 = 0x400;

/// Whether every bit of `wanted` is set in `flags`.
pub open spec fn contains_bits(flags: u32, wanted: u32) -> bool {
    flags & wanted == wanted
}

/// Whether `wanted` is a subset of `flags`.
pub fn contains(flags: u32, wanted: u32) -> (r: bool)
    ensures
        r == contains_bits(flags, wanted),
{
    flags & wanted == wanted
}

} // verus!
