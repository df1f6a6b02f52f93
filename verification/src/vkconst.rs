//! The raw values of the Vulkan enumerants and flag bits the renderer's logic
//! reads. The library works on raw values; the application converts them from
//! and to the typed Vulkan bindings.

use vstd::prelude::*;

verus! {

pub const FORMAT_UNDEFINED: i32 = 0;
pub const FORMAT_R8G8B8_UNORM: i32 = 23;
pub const FORMAT_B8G8R8_SRGB: i32 = 36;
pub const FORMAT_R8G8B8A8_UNORM: i32 = 37;
pub const FORMAT_B8G8R8A8_UNORM: i32 = 44;
pub const FORMAT_B8G8R8A8_SRGB: i32 = 50;
pub const FORMAT_R16G16B16_UNORM: i32 = 84;
pub const FORMAT_R16G16B16_SFLOAT: i32 = 90;
pub const FORMAT_R16G16B16A16_UNORM: i32 = 91;
pub const FORMAT_R16G16B16A16_SFLOAT: i32 = 97;
pub const FORMAT_D16_UNORM: i32 = 124;
pub const FORMAT_D32_SFLOAT: i32 = 126;
pub const FORMAT_D16_UNORM_S8_UINT: i32 = 128;
pub const FORMAT_D24_UNORM_S8_UINT: i32 = 129;
pub const FORMAT_D32_SFLOAT_S8_UINT: i32 = 130;

pub const COLOR_SPACE_SRGB_NONLINEAR: i32 = 0;

pub const PRESENT_MODE_IMMEDIATE: i32 = 0;
pub const PRESENT_MODE_MAILBOX: i32 = 1;
pub const PRESENT_MODE_FIFO: i32 = 2;
pub const PRESENT_MODE_FIFO_RELAXED: i32 = 3;

pub const IMAGE_TILING_OPTIMAL: i32 = 0;
pub const IMAGE_TILING_LINEAR: i32 = 1;

pub const PHYSICAL_DEVICE_TYPE_OTHER: i32 = 0;
pub const PHYSICAL_DEVICE_TYPE_INTEGRATED_GPU: i32 = 1;
pub const PHYSICAL_DEVICE_TYPE_DISCRETE_GPU: i32 = 2;

pub const QUEUE_GRAPHICS_BIT: u32 = 0x1;
pub const QUEUE_COMPUTE_BIT: u32 = 0x2;
pub const QUEUE_TRANSFER_BIT: u32 = 0x4;
pub const QUEUE_SPARSE_BINDING_BIT: u32 = 0x8;

pub const FORMAT_FEATURE_DEPTH_STENCIL_ATTACHMENT_BIT: u32 = 0x200;

pub const IMAGE_USAGE_TRANSFER_SRC_BIT: u32 = 0x1;
pub const IMAGE_USAGE_TRANSFER_DST_BIT: u32 = 0x2;
pub const IMAGE_USAGE_SAMPLED_BIT: u32 = 0x4;
pub const IMAGE_USAGE_STORAGE_BIT: u32 = 0x8;
pub const IMAGE_USAGE_COLOR_ATTACHMENT_BIT: u32 = 0x10;
pub const IMAGE_USAGE_DEPTH_STENCIL_ATTACHMENT_BIT: u32 = 0x20;

pub const IMAGE_ASPECT_COLOR_BIT: u32 = 0x1;
pub const IMAGE_ASPECT_DEPTH_BIT: u32 = 0x2;

pub const SAMPLE_COUNT_1_BIT: u32 = 0x1;
pub const SHARING_MODE_EXCLUSIVE: i32 = 0;
pub const IMAGE_TYPE_2D: i32 = 1;
pub const IMAGE_VIEW_TYPE_2D: i32 = 1;

pub const DESCRIPTOR_TYPE_COMBINED_IMAGE_SAMPLER: i32 = 1;
pub const DESCRIPTOR_TYPE_STORAGE_IMAGE: i32 = 3;
pub const DESCRIPTOR_TYPE_UNIFORM_BUFFER: i32 = 6;
pub const DESCRIPTOR_TYPE_STORAGE_BUFFER: i32 = 7;
pub const DESCRIPTOR_TYPE_UNIFORM_BUFFER_DYNAMIC: i32 = 8;
pub const DESCRIPTOR_TYPE_STORAGE_BUFFER_DYNAMIC: i32 = 9;
pub const DESCRIPTOR_TYPE_INPUT_ATTACHMENT: i32 = 10;

pub const DEBUG_SEVERITY_VERBOSE_BIT: u32 = 0x1;
pub const DEBUG_SEVERITY_INFO_BIT: u32 = 0x10;
pub const DEBUG_SEVERITY_WARNING_BIT: u32 = 0x100;
pub const DEBUG_SEVERITY_ERROR_BIT: u32 = 0x1000;

pub const DEBUG_TYPE_GENERAL_BIT: u32 = 0x1;
pub const DEBUG_TYPE_VALIDATION_BIT: u32 = 0x2;
pub const DEBUG_TYPE_PERFORMANCE_BIT: u32 = 0x4;

pub const BUILD_AS_ALLOW_COMPACTION_BIT: u32 = 0x2;
pub const BUILD_AS_PREFER_FAST_TRACE_BIT: u32 = 0x4;

} // verus!
