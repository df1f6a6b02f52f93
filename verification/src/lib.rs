//! Verified logic of a Vulkan renderer: frame pacing, resource sizing,
//! device and swapchain selection, and the planning of UI draw calls.

pub mod align;
pub mod text;
pub mod frame;
pub mod ui;
pub mod vkconst;
pub mod device;
pub mod swapchain;
pub mod format;
pub mod debug;
pub mod instance;
pub mod spirv;
pub mod timer;
pub mod camera_controller;
pub mod resources;
pub mod submit;
pub mod settings;
