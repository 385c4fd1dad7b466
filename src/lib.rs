//! Decision logic for bringing up a Vulkan presentation context: capability
//! negotiation, physical-device selection, swapchain configuration, the
//! frames-in-flight scheduler and the ordered teardown of GPU resources.
//!
//! Every function here works on plain values; the few values that come from
//! the `ash` bindings (extension names, enumerant numbers, flag tests) are
//! read through the trusted items of `vk_names`. The calls that talk to the
//! driver are made by the embedding program, which hands the results in.

pub mod device;
pub mod error;
pub mod frame;
pub mod negotiate;
pub mod pipeline;
pub mod shader;
pub mod swapchain;
pub mod teardown;
mod vk_names;
