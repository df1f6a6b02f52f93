//! Settings and small state of the renderer and its window.

use vstd::prelude::*;
use crate::format::depth_format_candidates;
use crate::swapchain::SurfaceFormat;
use crate::vkconst::FORMAT_B8G8R8A8_UNORM;
use crate::vkconst::COLOR_SPACE_SRGB_NONLINEAR;
use crate::vkconst::PRESENT_MODE_MAILBOX;
use crate::vkconst::FORMAT_D32_SFLOAT_S8_UINT;
use crate::vkconst::FORMAT_D32_SFLOAT;
use crate::vkconst::FORMAT_D24_UNORM_S8_UINT;
use crate::vkconst::FORMAT_D16_UNORM_S8_UINT;
use crate::vkconst::FORMAT_D16_UNORM;

verus! {

/// The event the application's event loop carries for its own use.
#[derive(Clone, Copy, PartialEq, Eq, Structural, Debug)]
pub struct UserEvent;

/// A pipeline barrier (the renderer builds barriers through the command buffer).
#[derive(Clone, Copy, PartialEq, Eq, Structural, Debug)]
pub struct PipelineBarrier {}

/// Resources whose memory comes from the allocator.
pub trait IAllcated {}

/// Settings of the UI pass.
#[derive(Clone, Copy, PartialEq, Eq, Structural, Debug)]
pub struct UiOptions {
    pub frames_in_flight: usize,
}

/// Size and title of the window to create.
#[derive(Debug)]
pub struct WindowCreateInfo {
    pub width: i32,
    pub height: i32,
    pub title: Vec<char>,
}

/// How to set up the frames of the render context.
#[derive(Debug)]
pub struct RenderContextInitInfo {
    pub frames_in_flight: usize,
    /// The depth formats to try, best first.
    pub depth_format_dedicate: Vec<i32>,
}

impl Default for RenderContextInitInfo {
    /// Three frames in flight and the usual depth formats.
    fn default() -> (r: Self)
        ensures
            r.frames_in_flight == 3,
            r.depth_format_dedicate@ == seq![
                FORMAT_D32_SFLOAT_S8_UINT,
                FORMAT_D32_SFLOAT,
                FORMAT_D24_UNORM_S8_UINT,
                FORMAT_D16_UNORM_S8_UINT,
                FORMAT_D16_UNORM,
            ],
    {
        RenderContextInitInfo { frames_in_flight: 3, depth_format_dedicate: depth_format_candidates() }
    }
}

/// What the swapchain prefers: the surface format (how the presentation engine
/// treats the color values) and the present mode.
#[derive(Clone, Copy, PartialEq, Eq, Structural, Debug)]
pub struct SwapchainPreferences {
    pub format: SurfaceFormat,
    pub present_mode: i32,
}

impl Default for SwapchainPreferences {
    /// `B8G8R8A8_UNORM` in the sRGB non-linear color space, and mailbox
    /// presentation.
    fn default() -> (r: Self)
        ensures
            r == (SwapchainPreferences {
                format: SurfaceFormat { format: FORMAT_B8G8R8A8_UNORM, color_space: COLOR_SPACE_SRGB_NONLINEAR },
                present_mode: PRESENT_MODE_MAILBOX,
            }),
    {
        SwapchainPreferences {
            format: SurfaceFormat { format: FORMAT_B8G8R8A8_UNORM, color_space: COLOR_SPACE_SRGB_NONLINEAR },
            present_mode: PRESENT_MODE_MAILBOX,
        }
    }
}

/// How many consecutive frames have been rendered from an unchanged camera, for
/// progressive accumulation.
#[derive(Clone, Copy, PartialEq, Eq, Structural, Debug)]
pub struct AccumFrames {
    pub accum_frames_num: usize,
}

impl AccumFrames {
    /// No frame accumulated yet.
    pub fn new() -> (r: Self)
        ensures
            r.accum_frames_num == 0,
    {
        AccumFrames { accum_frames_num: 0 }
    }

    /// Counts one more frame, or starts over when the camera moved or turned.
    pub fn update_accum_frames(&mut self, camera_changed: bool)
        requires
            camera_changed || old(self).accum_frames_num < usize::MAX,
        ensures
            final(self).accum_frames_num == if camera_changed { 0 } else { old(self).accum_frames_num + 1 },
    {
        if camera_changed {
            self.accum_frames_num = 0;
        } else {
            self.accum_frames_num = self.accum_frames_num + 1;
        }
    }

    /// Starts over.
    pub fn reset(&mut self)
        ensures
            final(self).accum_frames_num == 0,
    {
        self.accum_frames_num = 0;
    }
}

} // verus!
