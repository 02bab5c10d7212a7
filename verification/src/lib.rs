//! Frame-rendering core of a renderer on an explicit graphics API: device and
//! queue selection, swapchain negotiation, the per-frame synchronization
//! protocol and dependency-ordered teardown, on plain values.

pub mod allocation;
pub mod barrier;
pub mod device;
pub mod flags;
pub mod frame;
pub mod instance;
pub mod lifetime;
pub mod memory;
pub mod pass;
pub mod renderer;
pub mod search;
pub mod shader;
pub mod status;
pub mod swapchain;
pub mod teardown;
pub mod version;
