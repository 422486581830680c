//! Device and swap-chain negotiation rules for a minimal Vulkan renderer.
//!
//! The driver and window system are queried and driven by the caller; this
//! library holds what those queries return as plain values and decides, with
//! proved contracts, which layers, extensions, physical device, queue
//! families, surface format, present mode, image count and extent to use.
pub mod error_utils;
pub mod utilities;
pub mod swapchain_setup;
pub mod names;
pub mod device_selection;
pub mod instance_setup;
