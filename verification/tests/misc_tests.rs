use truvis_render::timer::Timer;
use truvis_render::timer::duration_or_none;
use truvis_render::camera_controller::CameraController;
use truvis_render::camera_controller::CameraInput;
use truvis_render::camera_controller::CameraAction;
use truvis_render::camera_controller::camera_actions;
use truvis_render::resources::RhiCreateInfoUtil;
use truvis_render::resources::Texture2DCursor;
use truvis_render::resources::Binding;
use truvis_render::resources::BuildRange;
use truvis_render::resources::blas_build_flags;
use truvis_render::resources::tlas_build_flags;
use truvis_render::resources::blas_build_ranges;
use truvis_render::resources::tlas_build_range;
use truvis_render::submit::SubmitInfo;
use truvis_render::settings::AccumFrames;
use truvis_render::settings::RenderContextInitInfo;
use truvis_render::settings::SwapchainPreferences;
use truvis_render::settings::UiOptions;
use truvis_render::settings::WindowCreateInfo;
use truvis_render::settings::UserEvent;
use truvis_render::settings::PipelineBarrier;
use truvis_render::format::depth_format_candidates;
use ash::vk;

#[test]
fn timer_measures_non_negative_time_since_tic() {
    let mut t = Timer::new();
    t.tic();
    let d = t.toc().expect("clock went backwards");
    assert!(d < std::time::Duration::from_secs(60));
    assert_eq!(t.elapse, std::time::Duration::ZERO);
    assert_eq!(t.total_time, std::time::Duration::ZERO);
    let start = t.start_time;
    t.tic();
    assert_eq!(t.start_time, start);
}

#[test]
fn camera_controller_gives_access_to_its_camera() {
    let mut c = CameraController::new((1.0f32, 2.0f32), "input");
    assert_eq!(*c.camera(), (1.0, 2.0));
    c.camera_mut().0 = 5.0;
    assert_eq!(*c.camera(), (5.0, 2.0));
    assert_eq!(*c.input_manager(), "input");
}

#[test]
fn image_create_infos() {
    let d = RhiCreateInfoUtil::make_image2d_create_info(
        800,
        600,
        vk::Format::D32_SFLOAT.as_raw(),
        vk::ImageUsageFlags::DEPTH_STENCIL_ATTACHMENT.as_raw(),
    );
    assert_eq!((d.width, d.height, d.depth, d.array_layers, d.mip_levels), (800, 600, 1, 1, 1));
    assert_eq!(d.tiling, vk::ImageTiling::OPTIMAL.as_raw());
    assert_eq!(d.samples, vk::SampleCountFlags::TYPE_1.as_raw());
    assert_eq!(d.image_type, vk::ImageType::TYPE_2D.as_raw());
    let v = RhiCreateInfoUtil::make_image_view_2d_create_info(9, vk::Format::D32_SFLOAT.as_raw(), vk::ImageAspectFlags::DEPTH.as_raw());
    assert_eq!((v.image, v.level_count, v.layer_count, v.base_mip_level), (9, 1, 1, 0));
    assert_eq!(v.view_type, vk::ImageViewType::TYPE_2D.as_raw());
}

#[test]
fn texture_cursor() {
    let _c = Texture2DCursor::new(1, 2);
    assert_eq!(Texture2DCursor::get_type(), vk::DescriptorType::COMBINED_IMAGE_SAMPLER.as_raw());
    let b = Binding { set: 1, binding: 2 };
    assert_eq!((b.set, b.binding), (1, 2));
}

#[test]
fn acceleration_structure_builds() {
    let low_mem = vk::BuildAccelerationStructureFlagsKHR::LOW_MEMORY.as_raw();
    assert_eq!(
        blas_build_flags(low_mem),
        (vk::BuildAccelerationStructureFlagsKHR::LOW_MEMORY
            | vk::BuildAccelerationStructureFlagsKHR::ALLOW_COMPACTION
            | vk::BuildAccelerationStructureFlagsKHR::PREFER_FAST_TRACE)
            .as_raw()
    );
    assert_eq!(tlas_build_flags(0), vk::BuildAccelerationStructureFlagsKHR::PREFER_FAST_TRACE.as_raw());
    let r = blas_build_ranges(&vec![12, 0, 7]);
    assert_eq!(r.iter().map(|x| x.primitive_count).collect::<Vec<_>>(), vec![12, 0, 7]);
    assert!(r.iter().all(|x| x.primitive_offset == 0 && x.first_vertex == 0 && x.transform_offset == 0));
    assert_eq!(
        tlas_build_range(3),
        BuildRange { primitive_count: 3, primitive_offset: 0, first_vertex: 0, transform_offset: 0 }
    );
}

#[test]
fn submit_batch_splits_waits() {
    let info = SubmitInfo { command_buffers: vec![1, 2], wait_info: vec![(0x400, 7), (0x1, 8)], signal_info: vec![9] };
    let b = info.to_vk_batch();
    assert_eq!(b.command_buffers, vec![1, 2]);
    assert_eq!(b.wait_stages, vec![0x400, 0x1]);
    assert_eq!(b.wait_semaphores, vec![7, 8]);
    assert_eq!(b.signal_semaphores, vec![9]);
    let empty = SubmitInfo { command_buffers: vec![], wait_info: vec![], signal_info: vec![] }.to_vk_batch();
    assert!(empty.wait_stages.is_empty() && empty.wait_semaphores.is_empty());
}

#[test]
fn accumulation_restarts_when_camera_changes() {
    let mut a = AccumFrames::new();
    a.update_accum_frames(false);
    a.update_accum_frames(false);
    assert_eq!(a.accum_frames_num, 2);
    a.update_accum_frames(true);
    assert_eq!(a.accum_frames_num, 0);
    a.update_accum_frames(false);
    a.reset();
    assert_eq!(a.accum_frames_num, 0);
}

#[test]
fn defaults() {
    let r = RenderContextInitInfo::default();
    assert_eq!(r.frames_in_flight, 3);
    assert_eq!(r.depth_format_dedicate, depth_format_candidates());
    let p = SwapchainPreferences::default();
    assert_eq!(p.format.format, vk::Format::B8G8R8A8_UNORM.as_raw());
    assert_eq!(p.format.color_space, vk::ColorSpaceKHR::SRGB_NONLINEAR.as_raw());
    assert_eq!(p.present_mode, vk::PresentModeKHR::MAILBOX.as_raw());
    let u = UiOptions { frames_in_flight: 2 };
    assert_eq!(u.frames_in_flight, 2);
    let w = WindowCreateInfo { width: 1200, height: 800, title: "Truvis".chars().collect() };
    assert_eq!((w.width, w.height), (1200, 800));
    assert_eq!(UserEvent, UserEvent);
    assert_eq!(PipelineBarrier {}, PipelineBarrier {});
}

#[test]
fn camera_moves_follow_the_held_keys() {
    let idle = CameraInput {
        right_button_pressed: false,
        key_w: false,
        key_s: false,
        key_a: false,
        key_d: false,
        key_e: false,
        key_q: false,
    };
    assert!(camera_actions(idle).is_empty());
    let all = CameraInput {
        right_button_pressed: true,
        key_w: true,
        key_s: true,
        key_a: true,
        key_d: true,
        key_e: true,
        key_q: true,
    };
    assert_eq!(
        camera_actions(all),
        vec![
            CameraAction::RotateByMouse,
            CameraAction::MoveForward,
            CameraAction::MoveBackward,
            CameraAction::MoveLeft,
            CameraAction::MoveRight,
            CameraAction::MoveDown,
            CameraAction::MoveUp,
        ]
    );
    let some = CameraInput { key_d: true, key_q: true, ..idle };
    assert_eq!(camera_actions(some), vec![CameraAction::MoveRight, CameraAction::MoveUp]);
}

#[test]
fn measurement_is_the_clock_answer_or_none() {
    let d = std::time::Duration::from_millis(1500);
    assert_eq!(duration_or_none(Ok(d)), Some(d));
    let later = std::time::SystemTime::now();
    let earlier = std::time::SystemTime::UNIX_EPOCH;
    let backwards = earlier.duration_since(later);
    assert!(backwards.is_err());
    assert_eq!(duration_or_none(backwards), None);
    assert_eq!(duration_or_none(later.duration_since(earlier)), later.duration_since(earlier).ok());
}

#[test]
fn set_current_time_moves_only_the_measurement_start() {
    let mut t = Timer::new();
    let start = t.start_time;
    let epoch = std::time::SystemTime::UNIX_EPOCH;
    t.set_current_time(epoch);
    assert_eq!(t.current_time, epoch);
    assert_eq!(t.start_time, start);
    assert_eq!(t.elapse, std::time::Duration::ZERO);
    // measured from the epoch, the time since is far more than a day
    assert!(t.toc().unwrap() > std::time::Duration::from_secs(86_400));
}
