//! Decision logic behind a pair of small Vulkan demos: a windowed triangle
//! renderer and a headless compute dispatch that fills an image.
//!
//! The driver calls themselves (instance, device, swapchain, pipeline,
//! command buffer creation) are glue that an unverified front end performs;
//! this crate holds the choices and sizes those calls are made with, each
//! with a proved contract: which physical device and queue family to use,
//! how many swapchain images to ask for, how many workgroups to dispatch,
//! and how large the readback buffer must be.

pub mod device;
pub mod sizing;
