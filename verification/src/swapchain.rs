//! Swapchain configuration: how many images to ask for, which present mode and
//! which surface format to use.

use vstd::prelude::*;
use crate::device::find_or_first_at;

verus! {

/// A surface format: a pixel format and the color space the presentation
/// engine interprets it in.
#[derive(Clone, Copy, PartialEq, Eq, Structural, Debug)]
pub struct SurfaceFormat {
    pub format: i32,
    pub color_space: i32,
}

/// The number of swapchain images to request: one more than the surface's
/// minimum, but no more than its maximum when it has one (a maximum of 0 means
/// no limit).
pub fn swapchain_image_count(min_image_count: u32, max_image_count: u32) -> (r: u32)
    requires
        min_image_count < u32::MAX,
    ensures
        max_image_count == 0 ==> r == min_image_count + 1,
        max_image_count != 0 ==> r == if max_image_count < min_image_count + 1 { max_image_count as int } else { min_image_count + 1 },
{
    if max_image_count == 0 {
        min_image_count + 1
    } else if max_image_count < min_image_count + 1 {
        max_image_count
    } else {
        min_image_count + 1
    }
}

/// The present mode to use among those the surface supports: `preferred` when
/// it is one of them, otherwise the first.
pub fn select_present_mode(available: &Vec<i32>, preferred: i32) -> (r: i32)
    requires
        available@.len() > 0,
    ensures
        available@.contains(preferred) ==> r == preferred,
        !available@.contains(preferred) ==> r == available@[0],
        exists|i: int| find_or_first_at(available@, |p: i32| p == preferred, i) && available@[i] == r,
{
    let mut i: usize = 0;
    while i < available.len()
        invariant
            i <= available.len(),
            forall|j: int| 0 <= j < i ==> #[trigger] available@[j] != preferred,
        decreases available.len() - i,
    {
        if available[i] == preferred {
            assert(find_or_first_at(available@, |p: i32| p == preferred, i as int));
            return preferred;
        }
        i = i + 1;
    }
    assert(!available@.contains(preferred));
    assert(find_or_first_at(available@, |p: i32| p == preferred, 0));
    available[0]
}

/// Whether the surface supports exactly the wanted pair of format and color
/// space (the swapchain is created with that pair, and cannot be without it).
pub fn surface_format_supported(available: &Vec<SurfaceFormat>, wanted: SurfaceFormat) -> (r: bool)
    ensures
        r == available@.contains(wanted),
{
    let mut i: usize = 0;
    while i < available.len()
        invariant
            i <= available.len(),
            forall|j: int| 0 <= j < i ==> #[trigger] available@[j] != wanted,
        decreases available.len() - i,
    {
        if available[i] == wanted {
            assert(available@[i as int] == wanted);
            return true;
        }
        i = i + 1;
    }
    false
}

} // verus!
