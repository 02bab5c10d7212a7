//! Image layout transitions: what a barrier has to wait for and what has to
//! wait for the barrier.

use vstd::prelude::*;

verus! {

/// Image layout: contents undefined.
pub const LAYOUT_UNDEFINED: i32 = 0;

/// Image layout: best for reading in a shader.
pub const LAYOUT_SHADER_READ_ONLY_OPTIMAL: i32 = 5;

/// Image layout: best as the destination of a transfer.
pub const LAYOUT_TRANSFER_DST_OPTIMAL: i32 = 7;

/// Access: read in a shader.
pub const ACCESS_SHADER_READ: u32 = 0x20;

/// Access: write by a transfer.
pub const ACCESS_TRANSFER_WRITE: u32 = 0x1000;

/// Pipeline stage: before any command is processed.
pub const STAGE_TOP_OF_PIPE: u32 = 0x1;

/// Pipeline stage: the fragment shader.
pub const STAGE_FRAGMENT_SHADER: u32 = 0x80;

/// Pipeline stage: transfers.
pub const STAGE_TRANSFER: u32 = 0x1000;

/// The masks of the barrier of a layout transition.
#[derive(Clone, Copy, Debug, PartialEq, Eq, Structural)]
pub struct LayoutTransition {
    pub src_access_mask: u32,
    pub dst_access_mask: u32,
    pub src_stage_mask: u32,
    pub dst_stage_mask: u32,
}

/// The barrier for the two transitions of an upload: before the copy, from
/// undefined contents to a transfer destination, nothing is waited for and
/// the transfer write waits; after the copy, from transfer destination to
/// shader reading, the transfer write is waited for and the reads of the
/// fragment shader wait. No other transition is known.
pub open spec fn transition_masks(old_layout: i32, new_layout: i32) -> Option<LayoutTransition> {
    if old_layout == LAYOUT_UNDEFINED && new_layout == LAYOUT_TRANSFER_DST_OPTIMAL {
        Some(
            LayoutTransition {
                src_access_mask: 0,
                dst_access_mask: ACCESS_TRANSFER_WRITE,
                src_stage_mask: STAGE_TOP_OF_PIPE,
                dst_stage_mask: STAGE_TRANSFER,
            },
        )
    } else if old_layout == LAYOUT_TRANSFER_DST_OPTIMAL && new_layout
        == LAYOUT_SHADER_READ_ONLY_OPTIMAL {
        Some(
            LayoutTransition {
                src_access_mask: ACCESS_TRANSFER_WRITE,
                dst_access_mask: ACCESS_SHADER_READ,
                src_stage_mask: STAGE_TRANSFER,
                dst_stage_mask: STAGE_FRAGMENT_SHADER,
            },
        )
    } else {
        None
    }
}

/// The masks of the barrier that takes an image from one layout to another.
/// `None` exactly for a transition other than the two of an upload.
pub fn layout_transition(old_layout: i32, new_layout: i32) -> (r: Option<LayoutTransition>)
    ensures
        r == transition_masks(old_layout, new_layout),
{
    if old_layout == LAYOUT_UNDEFINED && new_layout == LAYOUT_TRANSFER_DST_OPTIMAL {
        Some(
            LayoutTransition {
                src_access_mask: 0,
                dst_access_mask: ACCESS_TRANSFER_WRITE,
                src_stage_mask: STAGE_TOP_OF_PIPE,
                dst_stage_mask: STAGE_TRANSFER,
            },
        )
    } else if old_layout == LAYOUT_TRANSFER_DST_OPTIMAL && new_layout
        == LAYOUT_SHADER_READ_ONLY_OPTIMAL {
        Some(
            LayoutTransition {
                src_access_mask: ACCESS_TRANSFER_WRITE,
                dst_access_mask: ACCESS_SHADER_READ,
                src_stage_mask: STAGE_TRANSFER,
                dst_stage_mask: STAGE_FRAGMENT_SHADER,
            },
        )
    } else {
        None
    }
}

/// The two transitions of an upload fit together: what the first lets
/// through is what the second waits for.
pub proof fn lemma_upload_transitions_chain()
    ensures
        ({
            let first = transition_masks(LAYOUT_UNDEFINED, LAYOUT_TRANSFER_DST_OPTIMAL);
            let second = transition_masks(
                LAYOUT_TRANSFER_DST_OPTIMAL,
                LAYOUT_SHADER_READ_ONLY_OPTIMAL,
            );
            &&& first is Some
            &&& second is Some
            &&& first.unwrap().dst_access_mask == second.unwrap().src_access_mask
            &&& first.unwrap().dst_stage_mask == second.unwrap().src_stage_mask
        }),
{
}

} // verus!
