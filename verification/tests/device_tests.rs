use truvis_render::device::select_physical_device;
use truvis_render::device::find_queue_family_index;
use truvis_render::device::plan_queues;
use truvis_render::device::queue_kind_for;
use truvis_render::device::QueueKind;
use truvis_render::device::descriptor_pool_plan;
use truvis_render::vkconst::BUILD_AS_ALLOW_COMPACTION_BIT;
use truvis_render::vkconst::BUILD_AS_PREFER_FAST_TRACE_BIT;
use truvis_render::vkconst::COLOR_SPACE_SRGB_NONLINEAR;
use truvis_render::vkconst::DEBUG_SEVERITY_ERROR_BIT;
use truvis_render::vkconst::DEBUG_SEVERITY_INFO_BIT;
use truvis_render::vkconst::DEBUG_SEVERITY_VERBOSE_BIT;
use truvis_render::vkconst::DEBUG_SEVERITY_WARNING_BIT;
use truvis_render::vkconst::DEBUG_TYPE_GENERAL_BIT;
use truvis_render::vkconst::DEBUG_TYPE_PERFORMANCE_BIT;
use truvis_render::vkconst::DEBUG_TYPE_VALIDATION_BIT;
use truvis_render::vkconst::DESCRIPTOR_TYPE_INPUT_ATTACHMENT;
use truvis_render::vkconst::DESCRIPTOR_TYPE_STORAGE_IMAGE;
use truvis_render::vkconst::DESCRIPTOR_TYPE_UNIFORM_BUFFER;
use truvis_render::vkconst::DESCRIPTOR_TYPE_UNIFORM_BUFFER_DYNAMIC;
use truvis_render::vkconst::FORMAT_B8G8R8A8_SRGB;
use truvis_render::vkconst::FORMAT_B8G8R8A8_UNORM;
use truvis_render::vkconst::FORMAT_FEATURE_DEPTH_STENCIL_ATTACHMENT_BIT;
use truvis_render::vkconst::IMAGE_ASPECT_COLOR_BIT;
use truvis_render::vkconst::IMAGE_ASPECT_DEPTH_BIT;
use truvis_render::vkconst::IMAGE_TILING_LINEAR;
use truvis_render::vkconst::IMAGE_TILING_OPTIMAL;
use truvis_render::vkconst::IMAGE_TYPE_2D;
use truvis_render::vkconst::IMAGE_USAGE_COLOR_ATTACHMENT_BIT;
use truvis_render::vkconst::IMAGE_USAGE_DEPTH_STENCIL_ATTACHMENT_BIT;
use truvis_render::vkconst::IMAGE_USAGE_SAMPLED_BIT;
use truvis_render::vkconst::IMAGE_USAGE_STORAGE_BIT;
use truvis_render::vkconst::IMAGE_USAGE_TRANSFER_DST_BIT;
use truvis_render::vkconst::IMAGE_USAGE_TRANSFER_SRC_BIT;
use truvis_render::vkconst::IMAGE_VIEW_TYPE_2D;
use truvis_render::vkconst::PHYSICAL_DEVICE_TYPE_DISCRETE_GPU;
use truvis_render::vkconst::PHYSICAL_DEVICE_TYPE_INTEGRATED_GPU;
use truvis_render::vkconst::PHYSICAL_DEVICE_TYPE_OTHER;
use truvis_render::vkconst::PRESENT_MODE_FIFO;
use truvis_render::vkconst::PRESENT_MODE_FIFO_RELAXED;
use truvis_render::vkconst::PRESENT_MODE_IMMEDIATE;
use truvis_render::vkconst::PRESENT_MODE_MAILBOX;
use truvis_render::vkconst::QUEUE_COMPUTE_BIT;
use truvis_render::vkconst::QUEUE_GRAPHICS_BIT;
use truvis_render::vkconst::QUEUE_SPARSE_BINDING_BIT;
use truvis_render::vkconst::QUEUE_TRANSFER_BIT;
use truvis_render::vkconst::SAMPLE_COUNT_1_BIT;
use truvis_render::vkconst::SHARING_MODE_EXCLUSIVE;
use truvis_render::swapchain::swapchain_image_count;
use truvis_render::swapchain::select_present_mode;
use truvis_render::swapchain::surface_format_supported;
use truvis_render::swapchain::SurfaceFormat;
use ash::vk;

#[test]
fn discrete_gpu_is_preferred() {
    let types = vec![PHYSICAL_DEVICE_TYPE_INTEGRATED_GPU, PHYSICAL_DEVICE_TYPE_DISCRETE_GPU, PHYSICAL_DEVICE_TYPE_DISCRETE_GPU];
    assert_eq!(select_physical_device(&types), 1);
    assert_eq!(select_physical_device(&vec![PHYSICAL_DEVICE_TYPE_INTEGRATED_GPU, PHYSICAL_DEVICE_TYPE_OTHER]), 0);
    assert_eq!(select_physical_device(&vec![PHYSICAL_DEVICE_TYPE_DISCRETE_GPU]), 0);
}

#[test]
fn first_family_with_all_flags() {
    let families = vec![QUEUE_TRANSFER_BIT, QUEUE_GRAPHICS_BIT | QUEUE_COMPUTE_BIT | QUEUE_TRANSFER_BIT, QUEUE_COMPUTE_BIT];
    assert_eq!(find_queue_family_index(&families, QUEUE_GRAPHICS_BIT), Some(1));
    assert_eq!(find_queue_family_index(&families, QUEUE_COMPUTE_BIT), Some(1));
    assert_eq!(find_queue_family_index(&families, QUEUE_TRANSFER_BIT), Some(0));
    assert_eq!(find_queue_family_index(&families, QUEUE_SPARSE_BINDING_BIT), None);
    assert_eq!(find_queue_family_index(&vec![], QUEUE_GRAPHICS_BIT), None);
}

#[test]
fn queues_sharing_a_family_get_distinct_indices() {
    let p = plan_queues(0, 0, 0);
    assert_eq!(p.families, vec![(0, 3)]);
    assert_eq!((p.graphics_queue_index, p.compute_queue_index, p.transfer_queue_index), (0, 1, 2));

    let p = plan_queues(0, 1, 2);
    assert_eq!(p.families, vec![(0, 1), (1, 1), (2, 1)]);
    assert_eq!((p.graphics_queue_index, p.compute_queue_index, p.transfer_queue_index), (0, 0, 0));

    let p = plan_queues(0, 1, 1);
    assert_eq!(p.families, vec![(0, 1), (1, 2)]);
    assert_eq!((p.compute_queue_index, p.transfer_queue_index), (0, 1));

    let p = plan_queues(2, 2, 5);
    assert_eq!(p.families, vec![(2, 2), (5, 1)]);
    assert_eq!((p.compute_queue_index, p.transfer_queue_index), (1, 0));

    let p = plan_queues(3, 4, 3);
    assert_eq!(p.families, vec![(3, 2), (4, 1)]);
    assert_eq!((p.compute_queue_index, p.transfer_queue_index), (0, 1));
}

#[test]
fn one_shot_queue_kinds() {
    assert_eq!(queue_kind_for(QUEUE_GRAPHICS_BIT), QueueKind::Graphics);
    assert_eq!(queue_kind_for(QUEUE_COMPUTE_BIT), QueueKind::Compute);
    assert_eq!(queue_kind_for(QUEUE_TRANSFER_BIT), QueueKind::Transfer);
}

#[test]
fn descriptor_pool_sizes() {
    let p = descriptor_pool_plan();
    assert_eq!(p.max_sets, 544);
    assert_eq!(p.pool_sizes.len(), 7);
    assert_eq!(p.pool_sizes[0], (vk::DescriptorType::STORAGE_BUFFER_DYNAMIC.as_raw(), 128));
    assert_eq!(p.pool_sizes[1], (vk::DescriptorType::STORAGE_BUFFER.as_raw(), 288));
    assert_eq!(p.pool_sizes[3], (vk::DescriptorType::COMBINED_IMAGE_SAMPLER.as_raw(), 288));
}

#[test]
fn swapchain_image_count_one_above_minimum() {
    assert_eq!(swapchain_image_count(2, 0), 3);
    assert_eq!(swapchain_image_count(2, 8), 3);
    assert_eq!(swapchain_image_count(3, 3), 3);
    assert_eq!(swapchain_image_count(1, 2), 2);
}

#[test]
fn present_mode_falls_back_to_first() {
    let modes = vec![PRESENT_MODE_FIFO, PRESENT_MODE_MAILBOX];
    assert_eq!(select_present_mode(&modes, PRESENT_MODE_MAILBOX), PRESENT_MODE_MAILBOX);
    assert_eq!(select_present_mode(&modes, PRESENT_MODE_IMMEDIATE), PRESENT_MODE_FIFO);
    assert_eq!(select_present_mode(&vec![PRESENT_MODE_IMMEDIATE], PRESENT_MODE_FIFO), PRESENT_MODE_IMMEDIATE);
}

#[test]
fn surface_format_must_match_exactly() {
    let want = SurfaceFormat { format: FORMAT_B8G8R8A8_UNORM, color_space: COLOR_SPACE_SRGB_NONLINEAR };
    let other = SurfaceFormat { format: FORMAT_B8G8R8A8_SRGB, color_space: COLOR_SPACE_SRGB_NONLINEAR };
    assert!(surface_format_supported(&vec![other, want], want));
    assert!(!surface_format_supported(&vec![other], want));
    assert!(!surface_format_supported(&vec![], want));
}

#[test]
fn raw_values_match_the_bindings() {
    assert_eq!(PHYSICAL_DEVICE_TYPE_DISCRETE_GPU, vk::PhysicalDeviceType::DISCRETE_GPU.as_raw());
    assert_eq!(PHYSICAL_DEVICE_TYPE_INTEGRATED_GPU, vk::PhysicalDeviceType::INTEGRATED_GPU.as_raw());
    assert_eq!(QUEUE_GRAPHICS_BIT, vk::QueueFlags::GRAPHICS.as_raw());
    assert_eq!(QUEUE_COMPUTE_BIT, vk::QueueFlags::COMPUTE.as_raw());
    assert_eq!(QUEUE_TRANSFER_BIT, vk::QueueFlags::TRANSFER.as_raw());
    assert_eq!(QUEUE_SPARSE_BINDING_BIT, vk::QueueFlags::SPARSE_BINDING.as_raw());
    assert_eq!(PRESENT_MODE_MAILBOX, vk::PresentModeKHR::MAILBOX.as_raw());
    assert_eq!(PRESENT_MODE_FIFO, vk::PresentModeKHR::FIFO.as_raw());
    assert_eq!(PRESENT_MODE_IMMEDIATE, vk::PresentModeKHR::IMMEDIATE.as_raw());
    assert_eq!(PRESENT_MODE_FIFO_RELAXED, vk::PresentModeKHR::FIFO_RELAXED.as_raw());
    assert_eq!(COLOR_SPACE_SRGB_NONLINEAR, vk::ColorSpaceKHR::SRGB_NONLINEAR.as_raw());
    assert_eq!(DESCRIPTOR_TYPE_INPUT_ATTACHMENT, vk::DescriptorType::INPUT_ATTACHMENT.as_raw());
    assert_eq!(DESCRIPTOR_TYPE_UNIFORM_BUFFER, vk::DescriptorType::UNIFORM_BUFFER.as_raw());
    assert_eq!(DESCRIPTOR_TYPE_UNIFORM_BUFFER_DYNAMIC, vk::DescriptorType::UNIFORM_BUFFER_DYNAMIC.as_raw());
    assert_eq!(DESCRIPTOR_TYPE_STORAGE_IMAGE, vk::DescriptorType::STORAGE_IMAGE.as_raw());
    assert_eq!(DEBUG_SEVERITY_ERROR_BIT, vk::DebugUtilsMessageSeverityFlagsEXT::ERROR.as_raw());
    assert_eq!(DEBUG_SEVERITY_WARNING_BIT, vk::DebugUtilsMessageSeverityFlagsEXT::WARNING.as_raw());
    assert_eq!(DEBUG_SEVERITY_INFO_BIT, vk::DebugUtilsMessageSeverityFlagsEXT::INFO.as_raw());
    assert_eq!(DEBUG_SEVERITY_VERBOSE_BIT, vk::DebugUtilsMessageSeverityFlagsEXT::VERBOSE.as_raw());
    assert_eq!(DEBUG_TYPE_GENERAL_BIT, vk::DebugUtilsMessageTypeFlagsEXT::GENERAL.as_raw());
    assert_eq!(DEBUG_TYPE_VALIDATION_BIT, vk::DebugUtilsMessageTypeFlagsEXT::VALIDATION.as_raw());
    assert_eq!(DEBUG_TYPE_PERFORMANCE_BIT, vk::DebugUtilsMessageTypeFlagsEXT::PERFORMANCE.as_raw());
    assert_eq!(BUILD_AS_ALLOW_COMPACTION_BIT, vk::BuildAccelerationStructureFlagsKHR::ALLOW_COMPACTION.as_raw());
    assert_eq!(BUILD_AS_PREFER_FAST_TRACE_BIT, vk::BuildAccelerationStructureFlagsKHR::PREFER_FAST_TRACE.as_raw());
    assert_eq!(IMAGE_USAGE_TRANSFER_SRC_BIT, vk::ImageUsageFlags::TRANSFER_SRC.as_raw());
    assert_eq!(IMAGE_USAGE_TRANSFER_DST_BIT, vk::ImageUsageFlags::TRANSFER_DST.as_raw());
    assert_eq!(IMAGE_USAGE_SAMPLED_BIT, vk::ImageUsageFlags::SAMPLED.as_raw());
    assert_eq!(IMAGE_USAGE_STORAGE_BIT, vk::ImageUsageFlags::STORAGE.as_raw());
    assert_eq!(IMAGE_USAGE_COLOR_ATTACHMENT_BIT, vk::ImageUsageFlags::COLOR_ATTACHMENT.as_raw());
    assert_eq!(IMAGE_USAGE_DEPTH_STENCIL_ATTACHMENT_BIT, vk::ImageUsageFlags::DEPTH_STENCIL_ATTACHMENT.as_raw());
    assert_eq!(IMAGE_ASPECT_COLOR_BIT, vk::ImageAspectFlags::COLOR.as_raw());
    assert_eq!(IMAGE_ASPECT_DEPTH_BIT, vk::ImageAspectFlags::DEPTH.as_raw());
    assert_eq!(SAMPLE_COUNT_1_BIT, vk::SampleCountFlags::TYPE_1.as_raw());
    assert_eq!(SHARING_MODE_EXCLUSIVE, vk::SharingMode::EXCLUSIVE.as_raw());
    assert_eq!(IMAGE_TYPE_2D, vk::ImageType::TYPE_2D.as_raw());
    assert_eq!(IMAGE_VIEW_TYPE_2D, vk::ImageViewType::TYPE_2D.as_raw());
    assert_eq!(IMAGE_TILING_OPTIMAL, vk::ImageTiling::OPTIMAL.as_raw());
    assert_eq!(IMAGE_TILING_LINEAR, vk::ImageTiling::LINEAR.as_raw());
    assert_eq!(FORMAT_FEATURE_DEPTH_STENCIL_ATTACHMENT_BIT, vk::FormatFeatureFlags::DEPTH_STENCIL_ATTACHMENT.as_raw());
}
