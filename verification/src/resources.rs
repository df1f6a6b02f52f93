//! Descriptions of the resources the renderer creates: 2D images and their
//! views, the shader bindings of textures, and acceleration-structure builds.

use vstd::prelude::*;
use crate::vkconst::IMAGE_TILING_OPTIMAL;
use crate::vkconst::SAMPLE_COUNT_1_BIT;
use crate::vkconst::SHARING_MODE_EXCLUSIVE;
use crate::vkconst::IMAGE_TYPE_2D;
use crate::vkconst::IMAGE_VIEW_TYPE_2D;
use crate::vkconst::DESCRIPTOR_TYPE_COMBINED_IMAGE_SAMPLER;
use crate::vkconst::BUILD_AS_ALLOW_COMPACTION_BIT;
use crate::vkconst::BUILD_AS_PREFER_FAST_TRACE_BIT;

verus! {

/// How to create a 2D image.
#[derive(Clone, Copy, PartialEq, Eq, Structural, Debug)]
pub struct Image2DCreateDesc {
    pub width: u32,
    pub height: u32,
    pub depth: u32,
    pub format: i32,
    pub usage: u32,
    pub tiling: i32,
    pub samples: u32,
    pub sharing_mode: i32,
    pub image_type: i32,
    pub array_layers: u32,
    pub mip_levels: u32,
}

/// How to create a view of a whole 2D image.
#[derive(Clone, Copy, PartialEq, Eq, Structural, Debug)]
pub struct ImageView2DCreateDesc {
    pub image: u64,
    pub format: i32,
    pub view_type: i32,
    pub aspect_mask: u32,
    pub base_mip_level: u32,
    pub level_count: u32,
    pub base_array_layer: u32,
    pub layer_count: u32,
}

/// Quick construction of the create infos the renderer uses most.
pub struct RhiCreateInfoUtil;

impl RhiCreateInfoUtil {
    /// A single-sampled, optimally tiled, exclusively owned 2D image of
    /// `width` x `height` pixels in `format`, with one layer and one mip level.
    pub fn make_image2d_create_info(width: u32, height: u32, format: i32, usage: u32) -> (d: Image2DCreateDesc)
        ensures
            d == (Image2DCreateDesc {
                width,
                height,
                depth: 1,
                format,
                usage,
                tiling: IMAGE_TILING_OPTIMAL,
                samples: SAMPLE_COUNT_1_BIT,
                sharing_mode: SHARING_MODE_EXCLUSIVE,
                image_type: IMAGE_TYPE_2D,
                array_layers: 1,
                mip_levels: 1,
            }),
    {
        Image2DCreateDesc {
            width,
            height,
            depth: 1,
            format,
            usage,
            tiling: IMAGE_TILING_OPTIMAL,
            samples: SAMPLE_COUNT_1_BIT,
            sharing_mode: SHARING_MODE_EXCLUSIVE,
            image_type: IMAGE_TYPE_2D,
            array_layers: 1,
            mip_levels: 1,
        }
    }

    /// A 2D view of the first mip level and layer of `image`, for the `aspect`
    /// aspects, in `format`.
    pub fn make_image_view_2d_create_info(image: u64, format: i32, aspect: u32) -> (d: ImageView2DCreateDesc)
        ensures
            d == (ImageView2DCreateDesc {
                image,
                format,
                view_type: IMAGE_VIEW_TYPE_2D,
                aspect_mask: aspect,
                base_mip_level: 0,
                level_count: 1,
                base_array_layer: 0,
                layer_count: 1,
            }),
    {
        ImageView2DCreateDesc {
            image,
            format,
            view_type: IMAGE_VIEW_TYPE_2D,
            aspect_mask: aspect,
            base_mip_level: 0,
            level_count: 1,
            base_array_layer: 0,
            layer_count: 1,
        }
    }
}

/// Where a resource is bound for shaders: descriptor set and binding.
#[derive(Clone, Copy, PartialEq, Eq, Structural, Debug)]
pub struct Binding {
    pub set: u32,
    pub binding: u32,
}

/// Accessor of a combined image-sampler descriptor of a shader.
#[derive(Clone, Copy, PartialEq, Eq, Structural, Debug)]
pub struct Texture2DCursor {
    set: u32,
    binding: u32,
}

impl Texture2DCursor {
    pub closed spec fn set_spec(&self) -> u32 {
        self.set
    }

    pub closed spec fn binding_spec(&self) -> u32 {
        self.binding
    }

    /// The texture at `binding` of descriptor set `set`.
    pub fn new(set: u32, binding: u32) -> (c: Self)
        ensures
            c.set_spec() == set,
            c.binding_spec() == binding,
    {
        Texture2DCursor { set, binding }
    }

    /// The descriptor type of a texture: a combined image sampler.
    pub fn get_type() -> (t: i32)
        ensures
            t == DESCRIPTOR_TYPE_COMBINED_IMAGE_SAMPLER,
    {
        DESCRIPTOR_TYPE_COMBINED_IMAGE_SAMPLER
    }
}

/// The build flags of a bottom-level acceleration structure: the requested
/// ones, plus compaction (it is compacted after the build) and fast tracing.
pub fn blas_build_flags(flags: u32) -> (r: u32)
    ensures
        r == flags | BUILD_AS_ALLOW_COMPACTION_BIT | BUILD_AS_PREFER_FAST_TRACE_BIT,
{
    flags | BUILD_AS_ALLOW_COMPACTION_BIT | BUILD_AS_PREFER_FAST_TRACE_BIT
}

/// The build flags of a top-level acceleration structure: the requested ones,
/// plus fast tracing.
pub fn tlas_build_flags(flags: u32) -> (r: u32)
    ensures
        r == flags | BUILD_AS_PREFER_FAST_TRACE_BIT,
{
    flags | BUILD_AS_PREFER_FAST_TRACE_BIT
}

/// The range of primitives an acceleration-structure build reads from one geometry.
#[derive(Clone, Copy, PartialEq, Eq, Structural, Debug)]
pub struct BuildRange {
    pub primitive_count: u32,
    pub primitive_offset: u32,
    pub first_vertex: u32,
    pub transform_offset: u32,
}

/// The build ranges of a bottom-level structure: one per geometry, each from the
/// start of its geometry, with that geometry's primitive count.
pub fn blas_build_ranges(primitive_counts: &Vec<u32>) -> (r: Vec<BuildRange>)
    ensures
        r@.len() == primitive_counts@.len(),
        forall|i: int| 0 <= i < r@.len() ==> #[trigger] r@[i] == (BuildRange {
            primitive_count: primitive_counts@[i],
            primitive_offset: 0,
            first_vertex: 0,
            transform_offset: 0,
        }),
{
    let mut r: Vec<BuildRange> = Vec::new();
    let mut i: usize = 0;
    while i < primitive_counts.len()
        invariant
            i <= primitive_counts.len(),
            r@.len() == i,
            forall|j: int| 0 <= j < i ==> #[trigger] r@[j] == (BuildRange {
                primitive_count: primitive_counts@[j],
                primitive_offset: 0,
                first_vertex: 0,
                transform_offset: 0,
            }),
        decreases primitive_counts.len() - i,
    {
        r.push(BuildRange {
            primitive_count: primitive_counts[i],
            primitive_offset: 0,
            first_vertex: 0,
            transform_offset: 0,
        });
        i = i + 1;
    }
    r
}

/// The build range of a top-level structure over `instance_count` instances
/// (the count taken as a `u32`).
pub fn tlas_build_range(instance_count: usize) -> (r: BuildRange)
    ensures
        r == (BuildRange {
            primitive_count: instance_count as u32,
            primitive_offset: 0,
            first_vertex: 0,
            transform_offset: 0,
        }),
{
    BuildRange {
        primitive_count: instance_count as u32,
        primitive_offset: 0,
        first_vertex: 0,
        transform_offset: 0,
    }
}

} // verus!
