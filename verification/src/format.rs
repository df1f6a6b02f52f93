//! Pixel formats: bytes per pixel for uploads, and the choice of a depth format
//! among the candidates the device supports.

use vstd::prelude::*;
use crate::device::flags_contain;
use crate::vkconst::FORMAT_UNDEFINED;
use crate::vkconst::FORMAT_R8G8B8_UNORM;
use crate::vkconst::FORMAT_B8G8R8_SRGB;
use crate::vkconst::FORMAT_R8G8B8A8_UNORM;
use crate::vkconst::FORMAT_B8G8R8A8_SRGB;
use crate::vkconst::FORMAT_R16G16B16_UNORM;
use crate::vkconst::FORMAT_R16G16B16_SFLOAT;
use crate::vkconst::FORMAT_R16G16B16A16_UNORM;
use crate::vkconst::FORMAT_R16G16B16A16_SFLOAT;
use crate::vkconst::FORMAT_D16_UNORM;
use crate::vkconst::FORMAT_D32_SFLOAT;
use crate::vkconst::FORMAT_D16_UNORM_S8_UINT;
use crate::vkconst::FORMAT_D24_UNORM_S8_UINT;
use crate::vkconst::FORMAT_D32_SFLOAT_S8_UINT;
use crate::vkconst::IMAGE_TILING_LINEAR;
use crate::vkconst::IMAGE_TILING_OPTIMAL;
use crate::vkconst::FORMAT_FEATURE_DEPTH_STENCIL_ATTACHMENT_BIT;

verus! {

/// `format` lies in the range from `first` to `last` of format values, both
/// included.
pub open spec fn in_format_region(format: i32, first: i32, last: i32) -> bool {
    first <= format <= last
}

/// The number of bytes a pixel of an uploadable format needs, following the
/// order of the format values in the Vulkan specification: the block of formats
/// from `R8G8B8_UNORM` to `B8G8R8_SRGB` takes 3 bytes, from `R8G8B8A8_UNORM` to
/// `B8G8R8A8_SRGB` 4, from `R16G16B16_UNORM` to `R16G16B16_SFLOAT` 6, from
/// `R16G16B16A16_UNORM` to `R16G16B16A16_SFLOAT` 8 (each block with both ends).
pub open spec fn format_byte_count_spec(format: i32) -> Option<usize> {
    if in_format_region(format, FORMAT_R8G8B8_UNORM, FORMAT_B8G8R8_SRGB) { Some(3) }
    else if in_format_region(format, FORMAT_R8G8B8A8_UNORM, FORMAT_B8G8R8A8_SRGB) { Some(4) }
    else if in_format_region(format, FORMAT_R16G16B16_UNORM, FORMAT_R16G16B16_SFLOAT) { Some(6) }
    else if in_format_region(format, FORMAT_R16G16B16A16_UNORM, FORMAT_R16G16B16A16_SFLOAT) { Some(8) }
    else { None }
}

/// The byte count of every format, block by block: 3 for each format from
/// `R8G8B8_UNORM` to `B8G8R8_SRGB`, 4 from `R8G8B8A8_UNORM` to `B8G8R8A8_SRGB`,
/// 6 from `R16G16B16_UNORM` to `R16G16B16_SFLOAT`, 8 from `R16G16B16A16_UNORM`
/// to `R16G16B16A16_SFLOAT`, and no byte count for any format outside the four
/// blocks.
pub proof fn lemma_byte_count_by_block(f: i32)
    ensures
        FORMAT_R8G8B8_UNORM <= f <= FORMAT_B8G8R8_SRGB ==> format_byte_count_spec(f) == Some(3usize),
        FORMAT_R8G8B8A8_UNORM <= f <= FORMAT_B8G8R8A8_SRGB ==> format_byte_count_spec(f) == Some(4usize),
        FORMAT_R16G16B16_UNORM <= f <= FORMAT_R16G16B16_SFLOAT ==> format_byte_count_spec(f) == Some(6usize),
        FORMAT_R16G16B16A16_UNORM <= f <= FORMAT_R16G16B16A16_SFLOAT ==> format_byte_count_spec(f) == Some(8usize),
        !(FORMAT_R8G8B8_UNORM <= f <= FORMAT_B8G8R8_SRGB)
            && !(FORMAT_R8G8B8A8_UNORM <= f <= FORMAT_B8G8R8A8_SRGB)
            && !(FORMAT_R16G16B16_UNORM <= f <= FORMAT_R16G16B16_SFLOAT)
            && !(FORMAT_R16G16B16A16_UNORM <= f <= FORMAT_R16G16B16A16_SFLOAT)
            ==> format_byte_count_spec(f) is None,
{
}

/// `format` is one of the formats image pixels are uploaded in.
pub fn is_uploadable_format(format: i32) -> (r: bool)
    ensures
        r == format_byte_count_spec(format) is Some,
{
    (FORMAT_R8G8B8_UNORM <= format && format <= FORMAT_B8G8R8_SRGB)
        || (FORMAT_R8G8B8A8_UNORM <= format && format <= FORMAT_B8G8R8A8_SRGB)
        || (FORMAT_R16G16B16_UNORM <= format && format <= FORMAT_R16G16B16_SFLOAT)
        || (FORMAT_R16G16B16A16_UNORM <= format && format <= FORMAT_R16G16B16A16_SFLOAT)
}

/// Bytes per pixel of an uploadable `format`.
pub fn format_byte_count(format: i32) -> (r: usize)
    requires
        format_byte_count_spec(format) is Some,
    ensures
        Some(r) == format_byte_count_spec(format),
{
    if FORMAT_R8G8B8_UNORM <= format && format <= FORMAT_B8G8R8_SRGB {
        3
    } else if FORMAT_R8G8B8A8_UNORM <= format && format <= FORMAT_B8G8R8A8_SRGB {
        4
    } else if FORMAT_R16G16B16_UNORM <= format && format <= FORMAT_R16G16B16_SFLOAT {
        6
    } else {
        8
    }
}

/// The number of bytes the pixel data of a `width` x `height` image in an
/// uploadable `format` must have: bytes per pixel times the pixel count (the
/// pixel count being a 32-bit number).
pub fn expected_upload_len(format: i32, width: u32, height: u32) -> (r: usize)
    requires
        format_byte_count_spec(format) is Some,
        width * height <= u32::MAX,
        format_byte_count_spec(format).unwrap() * (width * height) <= usize::MAX,
    ensures
        r == format_byte_count_spec(format).unwrap() * (width * height),
{
    let b = format_byte_count(format);
    let pixels: u32 = width * height;
    b * (pixels as usize)
}

/// What the device supports for one format: the feature bits with linear and
/// with optimal tiling.
#[derive(Clone, Copy, PartialEq, Eq, Structural, Debug)]
pub struct FormatFeatures {
    pub linear_tiling_features: u32,
    pub optimal_tiling_features: u32,
}

/// `format`, with `props` as its device support, is usable with `tiling` for
/// all of `features`.
pub open spec fn format_supports(props: FormatFeatures, tiling: i32, features: u32) -> bool {
    if tiling == IMAGE_TILING_LINEAR {
        flags_contain(props.linear_tiling_features, features)
    } else {
        flags_contain(props.optimal_tiling_features, features)
    }
}

/// The candidates the device supports with `tiling` for all of `features`, in
/// their order, `props[i]` being the support of `candidates[i]`.
pub open spec fn filter_supported(candidates: Seq<i32>, props: Seq<FormatFeatures>, tiling: i32, features: u32) -> Seq<i32>
    decreases candidates.len(),
{
    if candidates.len() == 0 {
        Seq::empty()
    } else {
        let rest = filter_supported(candidates.drop_last(), props.drop_last(), tiling, features);
        if format_supports(props.last(), tiling, features) { rest.push(candidates.last()) } else { rest }
    }
}

/// `r` lists the candidates at the positions `m`: strictly increasing positions
/// of supported candidates, every supported candidate's position among them.
pub open spec fn is_supported_selection(
    candidates: Seq<i32>,
    props: Seq<FormatFeatures>,
    tiling: i32,
    features: u32,
    r: Seq<i32>,
    m: Seq<int>,
) -> bool {
    &&& m.len() == r.len()
    &&& forall|k: int| 0 <= k < m.len() ==> 0 <= #[trigger] m[k] < candidates.len()
        && r[k] == candidates[m[k]] && format_supports(props[m[k]], tiling, features)
    &&& forall|k: int, l: int| 0 <= k < l < m.len() ==> #[trigger] m[k] < #[trigger] m[l]
    &&& forall|i: int| 0 <= i < candidates.len() && format_supports(#[trigger] props[i], tiling, features)
        ==> exists|k: int| 0 <= k < m.len() && #[trigger] m[k] == i
}

/// The supported candidates, in order: the result picks candidates at strictly
/// increasing positions `m`, each of them supported, and every supported
/// candidate is picked.
pub proof fn lemma_supported_formats_are_the_supported_candidates(
    candidates: Seq<i32>,
    props: Seq<FormatFeatures>,
    tiling: i32,
    features: u32,
)
    requires
        props.len() == candidates.len(),
    ensures
        exists|m: Seq<int>| #[trigger] is_supported_selection(
            candidates, props, tiling, features, filter_supported(candidates, props, tiling, features), m),
    decreases candidates.len(),
{
    let r = filter_supported(candidates, props, tiling, features);
    if candidates.len() == 0 {
        let m = Seq::<int>::empty();
        assert(is_supported_selection(candidates, props, tiling, features, r, m));
    } else {
        let pc = candidates.drop_last();
        let pp = props.drop_last();
        lemma_supported_formats_are_the_supported_candidates(pc, pp, tiling, features);
        let rest = filter_supported(pc, pp, tiling, features);
        let m0 = choose|m: Seq<int>| #[trigger] is_supported_selection(pc, pp, tiling, features, rest, m);
        let n = candidates.len() - 1;
        if format_supports(props.last(), tiling, features) {
            let m = m0.push(n);
            assert(r == rest.push(candidates.last()));
            assert forall|k: int| 0 <= k < m.len() implies 0 <= #[trigger] m[k] < candidates.len()
                && r[k] == candidates[m[k]] && format_supports(props[m[k]], tiling, features) by {
                if k < m0.len() {
                    assert(m[k] == m0[k]);
                    assert(pc[m0[k]] == candidates[m0[k]]);
                    assert(pp[m0[k]] == props[m0[k]]);
                }
            }
            assert forall|k: int, l: int| 0 <= k < l < m.len() implies #[trigger] m[k] < #[trigger] m[l] by {
                if l < m0.len() {
                    assert(m[k] == m0[k] && m[l] == m0[l]);
                } else {
                    assert(m[k] == m0[k]);
                }
            }
            assert forall|i: int| 0 <= i < candidates.len() && format_supports(#[trigger] props[i], tiling, features)
                implies exists|k: int| 0 <= k < m.len() && #[trigger] m[k] == i by {
                if i < n {
                    assert(pp[i] == props[i]);
                    let k = choose|k: int| 0 <= k < m0.len() && #[trigger] m0[k] == i;
                    assert(m[k] == i);
                } else {
                    assert(m[m0.len() as int] == i);
                }
            }
            assert(is_supported_selection(candidates, props, tiling, features, r, m));
        } else {
            let m = m0;
            assert(r == rest);
            assert forall|k: int| 0 <= k < m.len() implies 0 <= #[trigger] m[k] < candidates.len()
                && r[k] == candidates[m[k]] && format_supports(props[m[k]], tiling, features) by {
                assert(pc[m0[k]] == candidates[m0[k]]);
                assert(pp[m0[k]] == props[m0[k]]);
            }
            assert forall|i: int| 0 <= i < candidates.len() && format_supports(#[trigger] props[i], tiling, features)
                implies exists|k: int| 0 <= k < m.len() && #[trigger] m[k] == i by {
                if i < n {
                    assert(pp[i] == props[i]);
                } else {
                    assert(props[i] == props.last());
                }
            }
            assert(is_supported_selection(candidates, props, tiling, features, r, m));
        }
    }
}

/// The depth format is the first supported candidate: the result is a
/// supported candidate and no candidate before it is supported.
pub proof fn lemma_first_supported_is_first_candidate(
    candidates: Seq<i32>,
    props: Seq<FormatFeatures>,
    tiling: i32,
    features: u32,
)
    requires
        props.len() == candidates.len(),
        filter_supported(candidates, props, tiling, features).len() > 0,
    ensures
        exists|j: int| {
            &&& 0 <= j < candidates.len()
            &&& format_supports(props[j], tiling, features)
            &&& filter_supported(candidates, props, tiling, features)[0] == #[trigger] candidates[j]
            &&& forall|i: int| 0 <= i < j ==> !format_supports(#[trigger] props[i], tiling, features)
        },
{
    lemma_supported_formats_are_the_supported_candidates(candidates, props, tiling, features);
    let r = filter_supported(candidates, props, tiling, features);
    let m = choose|m: Seq<int>| #[trigger] is_supported_selection(candidates, props, tiling, features, r, m);
    let j = m[0];
    assert forall|i: int| 0 <= i < j implies !format_supports(#[trigger] props[i], tiling, features) by {
        if format_supports(props[i], tiling, features) {
            let k = choose|k: int| 0 <= k < m.len() && #[trigger] m[k] == i;
            if k > 0 {
                assert(m[0] < m[k]);
            }
        }
    }
    assert(r[0] == candidates[j]);
}

/// The candidate formats (in their order) the device supports with `tiling` for
/// all of `features`, given `props[i]` as the device's support of
/// `candidates[i]`. Only linear and optimal tiling can be asked about, unless
/// there are no candidates to ask about.
pub fn find_supported_formats(
    candidates: &Vec<i32>,
    props: &Vec<FormatFeatures>,
    tiling: i32,
    features: u32,
) -> (r: Vec<i32>)
    requires
        props@.len() == candidates@.len(),
        tiling == IMAGE_TILING_LINEAR || tiling == IMAGE_TILING_OPTIMAL || candidates@.len() == 0,
    ensures
        r@ == filter_supported(candidates@, props@, tiling, features),
{
    let mut out: Vec<i32> = Vec::new();
    let mut i: usize = 0;
    while i < candidates.len()
        invariant
            props@.len() == candidates@.len(),
            i <= candidates.len(),
            out@ == filter_supported(candidates@.take(i as int), props@.take(i as int), tiling, features),
        decreases candidates.len() - i,
    {
        let p = props[i];
        let ok = if tiling == IMAGE_TILING_LINEAR {
            p.linear_tiling_features & features == features
        } else {
            p.optimal_tiling_features & features == features
        };
        if ok {
            out.push(candidates[i]);
        }
        proof {
            assert(candidates@.take(i + 1).drop_last() == candidates@.take(i as int));
            assert(props@.take(i + 1).drop_last() == props@.take(i as int));
            assert(candidates@.take(i + 1).last() == candidates@[i as int]);
            assert(props@.take(i + 1).last() == props@[i as int]);
        }
        i = i + 1;
    }
    proof {
        assert(candidates@.take(i as int) == candidates@);
        assert(props@.take(i as int) == props@);
    }
    out
}

/// The depth formats tried for the depth buffer, best first.
pub fn depth_format_candidates() -> (v: Vec<i32>)
    ensures
        v@ == seq![
            FORMAT_D32_SFLOAT_S8_UINT,
            FORMAT_D32_SFLOAT,
            FORMAT_D24_UNORM_S8_UINT,
            FORMAT_D16_UNORM_S8_UINT,
            FORMAT_D16_UNORM,
        ],
{
    let mut v: Vec<i32> = Vec::new();
    v.push(FORMAT_D32_SFLOAT_S8_UINT);
    v.push(FORMAT_D32_SFLOAT);
    v.push(FORMAT_D24_UNORM_S8_UINT);
    v.push(FORMAT_D16_UNORM_S8_UINT);
    v.push(FORMAT_D16_UNORM);
    v
}

/// The depth formats the device layer tries when asked for its depth format;
/// the list names `D32_SFLOAT_S8_UINT` twice and leaves out `D24_UNORM_S8_UINT`.
pub fn rhi_depth_format_candidates() -> (v: Vec<i32>)
    ensures
        v@ == seq![
            FORMAT_D32_SFLOAT_S8_UINT,
            FORMAT_D32_SFLOAT,
            FORMAT_D32_SFLOAT_S8_UINT,
            FORMAT_D16_UNORM_S8_UINT,
            FORMAT_D16_UNORM,
        ],
{
    let mut v: Vec<i32> = Vec::new();
    v.push(FORMAT_D32_SFLOAT_S8_UINT);
    v.push(FORMAT_D32_SFLOAT);
    v.push(FORMAT_D32_SFLOAT_S8_UINT);
    v.push(FORMAT_D16_UNORM_S8_UINT);
    v.push(FORMAT_D16_UNORM);
    v
}

/// The depth format of the device layer: the first candidate the device supports
/// with optimal tiling as a depth/stencil attachment (the device must support
/// one of them).
pub fn pick_depth_format(candidates: &Vec<i32>, props: &Vec<FormatFeatures>) -> (r: i32)
    requires
        props@.len() == candidates@.len(),
        filter_supported(candidates@, props@, IMAGE_TILING_OPTIMAL, FORMAT_FEATURE_DEPTH_STENCIL_ATTACHMENT_BIT).len() > 0,
    ensures
        r == filter_supported(candidates@, props@, IMAGE_TILING_OPTIMAL, FORMAT_FEATURE_DEPTH_STENCIL_ATTACHMENT_BIT)[0],
{
    let supported = find_supported_formats(candidates, props, IMAGE_TILING_OPTIMAL, FORMAT_FEATURE_DEPTH_STENCIL_ATTACHMENT_BIT);
    supported[0]
}

/// The depth format of the renderer: the first candidate the device supports
/// with optimal tiling as a depth/stencil attachment, or `UNDEFINED` when it
/// supports none of them.
pub fn depth_format_or_undefined(candidates: &Vec<i32>, props: &Vec<FormatFeatures>) -> (r: i32)
    requires
        props@.len() == candidates@.len(),
    ensures
        ({
            let s = filter_supported(candidates@, props@, IMAGE_TILING_OPTIMAL, FORMAT_FEATURE_DEPTH_STENCIL_ATTACHMENT_BIT);
            &&& s.len() > 0 ==> r == s[0]
            &&& s.len() == 0 ==> r == FORMAT_UNDEFINED
        }),
{
    let supported = find_supported_formats(candidates, props, IMAGE_TILING_OPTIMAL, FORMAT_FEATURE_DEPTH_STENCIL_ATTACHMENT_BIT);
    if supported.len() > 0 {
        supported[0]
    } else {
        FORMAT_UNDEFINED
    }
}

} // verus!
