//! Decisions of a small Vulkan renderer: which queue families, surface format,
//! present mode, extent and image count a swapchain uses, which layers and
//! extensions the instance and device are created with, the fixed render-pass
//! and pipeline state, the order objects are destroyed in, and how the
//! window's event loop reacts to events.

pub mod consts;
pub mod device;
pub mod error;
pub mod events;
pub mod instance;
pub mod names;
pub mod pipeline;
pub mod platform;
pub mod queues;
pub mod search;
pub mod swapchain;
pub mod teardown;
