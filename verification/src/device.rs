//! Choosing the GPU, its queue families and the queues to create on them, and
//! the shared descriptor pool's sizes.

use vstd::prelude::*;
use crate::vkconst::PHYSICAL_DEVICE_TYPE_DISCRETE_GPU;
use crate::vkconst::QUEUE_GRAPHICS_BIT;
use crate::vkconst::QUEUE_COMPUTE_BIT;
use crate::vkconst::QUEUE_TRANSFER_BIT;
use crate::vkconst::DESCRIPTOR_TYPE_STORAGE_BUFFER_DYNAMIC;
use crate::vkconst::DESCRIPTOR_TYPE_STORAGE_BUFFER;
use crate::vkconst::DESCRIPTOR_TYPE_UNIFORM_BUFFER;
use crate::vkconst::DESCRIPTOR_TYPE_COMBINED_IMAGE_SAMPLER;
use crate::vkconst::DESCRIPTOR_TYPE_INPUT_ATTACHMENT;
use crate::vkconst::DESCRIPTOR_TYPE_UNIFORM_BUFFER_DYNAMIC;
use crate::vkconst::DESCRIPTOR_TYPE_STORAGE_IMAGE;

verus! {

/// `flags` holds every bit of `wanted`.
pub open spec fn flags_contain(flags: u32, wanted: u32) -> bool {
    flags & wanted == wanted
}

/// `i` is where a "find, or else the first" search over `s` with the predicate
/// `p` lands: the first position whose element satisfies `p`, or position 0
/// when none does.
pub open spec fn find_or_first_at<T>(s: Seq<T>, p: spec_fn(T) -> bool, i: int) -> bool {
    &&& 0 <= i < s.len()
    &&& forall|j: int| 0 <= j < i ==> !p(#[trigger] s[j])
    &&& (p(s[i]) || (i == 0 && forall|j: int| 0 <= j < s.len() ==> !p(#[trigger] s[j])))
}

/// Picks the GPU among those present: the first discrete GPU, or the first GPU
/// when there is no discrete one.
pub fn select_physical_device(device_types: &Vec<i32>) -> (r: usize)
    requires
        device_types@.len() > 0,
    ensures
        find_or_first_at(device_types@, |t: i32| t == PHYSICAL_DEVICE_TYPE_DISCRETE_GPU, r as int),
{
    let mut i: usize = 0;
    while i < device_types.len()
        invariant
            i <= device_types.len(),
            forall|j: int| 0 <= j < i ==> #[trigger] device_types@[j] != PHYSICAL_DEVICE_TYPE_DISCRETE_GPU,
        decreases device_types.len() - i,
    {
        if device_types[i] == PHYSICAL_DEVICE_TYPE_DISCRETE_GPU {
            return i;
        }
        i = i + 1;
    }
    0
}

/// A discrete GPU is chosen whenever there is one, and then the first of them;
/// without one the first GPU is chosen.
pub proof fn lemma_discrete_gpu_preferred(device_types: Seq<i32>, i: int)
    requires
        find_or_first_at(device_types, |t: i32| t == PHYSICAL_DEVICE_TYPE_DISCRETE_GPU, i),
    ensures
        (exists|j: int| 0 <= j < device_types.len() && device_types[j] == PHYSICAL_DEVICE_TYPE_DISCRETE_GPU) ==> {
            &&& device_types[i] == PHYSICAL_DEVICE_TYPE_DISCRETE_GPU
            &&& forall|j: int| 0 <= j < i ==> device_types[j] != PHYSICAL_DEVICE_TYPE_DISCRETE_GPU
        },
        (forall|j: int| 0 <= j < device_types.len() ==> device_types[j] != PHYSICAL_DEVICE_TYPE_DISCRETE_GPU) ==> i == 0,
{
    let p = |t: i32| t == PHYSICAL_DEVICE_TYPE_DISCRETE_GPU;
    if exists|j: int| 0 <= j < device_types.len() && device_types[j] == PHYSICAL_DEVICE_TYPE_DISCRETE_GPU {
        let j = choose|j: int| 0 <= j < device_types.len() && device_types[j] == PHYSICAL_DEVICE_TYPE_DISCRETE_GPU;
        assert(p(device_types[j]));
    }
    assert forall|j: int| 0 <= j < i implies device_types[j] != PHYSICAL_DEVICE_TYPE_DISCRETE_GPU by {
        assert(!p(device_types[j]));
    }
    if forall|j: int| 0 <= j < device_types.len() ==> device_types[j] != PHYSICAL_DEVICE_TYPE_DISCRETE_GPU {
        assert(!p(device_types[i]));
    }
}

/// The index of the first queue family whose capabilities include all of
/// `queue_flags`, or `None` when no family has them all.
pub fn find_queue_family_index(family_flags: &Vec<u32>, queue_flags: u32) -> (r: Option<u32>)
    requires
        family_flags@.len() <= u32::MAX,
    ensures
        r matches Some(i) ==> {
            &&& i < family_flags@.len()
            &&& flags_contain(family_flags@[i as int], queue_flags)
            &&& forall|j: int| 0 <= j < i ==> !flags_contain(#[trigger] family_flags@[j], queue_flags)
        },
        r is None ==> forall|j: int| 0 <= j < family_flags@.len() ==> !flags_contain(#[trigger] family_flags@[j], queue_flags),
{
    let mut i: usize = 0;
    while i < family_flags.len()
        invariant
            i <= family_flags.len() <= u32::MAX,
            forall|j: int| 0 <= j < i ==> !flags_contain(#[trigger] family_flags@[j], queue_flags),
        decreases family_flags.len() - i,
    {
        if family_flags[i] & queue_flags == queue_flags {
            return Some(i as u32);
        }
        i = i + 1;
    }
    None
}

/// The queues to create on the device: for each distinct queue family of the
/// graphics, compute and transfer queues, how many queues it gets, and which
/// queue of its family each of the three is.
#[derive(Clone, Debug)]
pub struct QueuePlan {
    /// `(queue family index, number of queues)`, one entry per distinct family,
    /// in the order graphics, compute, transfer first name them.
    pub families: Vec<(u32, u32)>,
    pub graphics_queue_index: u32,
    pub compute_queue_index: u32,
    pub transfer_queue_index: u32,
}

/// How many of the three queues live in family `f`.
pub open spec fn queues_in_family(g: u32, c: u32, t: u32, f: u32) -> nat {
    (if g == f { 1nat } else { 0nat }) + (if c == f { 1nat } else { 0nat }) + (if t == f { 1nat } else { 0nat })
}

/// Plans the queues to create when the graphics, compute and transfer queues
/// come from families `g`, `c` and `t`: every family gets one queue per role it
/// serves, and the roles sharing a family take its queues 0, 1, 2 in the order
/// graphics, compute, transfer.
pub fn plan_queues(g: u32, c: u32, t: u32) -> (plan: QueuePlan)
    ensures
        plan.graphics_queue_index == 0,
        plan.compute_queue_index == (if c == g { 1u32 } else { 0u32 }),
        plan.transfer_queue_index == (if t == g { 1u32 } else { 0u32 }) + (if t == c { 1u32 } else { 0u32 }),
        plan.families@ == (
            if c == g && t == g { seq![(g, 3u32)] }
            else if c == g { seq![(g, 2u32), (t, 1u32)] }
            else if t == g { seq![(g, 2u32), (c, 1u32)] }
            else if t == c { seq![(g, 1u32), (c, 2u32)] }
            else { seq![(g, 1u32), (c, 1u32), (t, 1u32)] }
        ),
{
    let mut families: Vec<(u32, u32)> = Vec::new();
    if c == g && t == g {
        families.push((g, 3));
    } else if c == g {
        families.push((g, 2));
        families.push((t, 1));
    } else if t == g {
        families.push((g, 2));
        families.push((c, 1));
    } else if t == c {
        families.push((g, 1));
        families.push((c, 2));
    } else {
        families.push((g, 1));
        families.push((c, 1));
        families.push((t, 1));
    }
    let compute_queue_index: u32 = if c == g { 1 } else { 0 };
    let transfer_queue_index: u32 = (if t == g { 1u32 } else { 0u32 }) + (if t == c { 1u32 } else { 0u32 });
    QueuePlan {
        families,
        graphics_queue_index: 0,
        compute_queue_index,
        transfer_queue_index,
    }
}

/// A queue plan gives every family as many queues as roles it serves, lists each
/// family once, and hands out distinct queues of a family to distinct roles.
pub proof fn lemma_queue_plan_sound(g: u32, c: u32, t: u32, plan: QueuePlan)
    requires
        plan.graphics_queue_index == 0,
        plan.compute_queue_index == (if c == g { 1u32 } else { 0u32 }),
        plan.transfer_queue_index == (if t == g { 1u32 } else { 0u32 }) + (if t == c { 1u32 } else { 0u32 }),
        plan.families@ == (
            if c == g && t == g { seq![(g, 3u32)] }
            else if c == g { seq![(g, 2u32), (t, 1u32)] }
            else if t == g { seq![(g, 2u32), (c, 1u32)] }
            else if t == c { seq![(g, 1u32), (c, 2u32)] }
            else { seq![(g, 1u32), (c, 1u32), (t, 1u32)] }
        ),
    ensures
        forall|k: int| 0 <= k < plan.families@.len() ==>
            (#[trigger] plan.families@[k]).1 == queues_in_family(g, c, t, plan.families@[k].0),
        forall|k: int, l: int| 0 <= k < l < plan.families@.len() ==>
            (#[trigger] plan.families@[k]).0 != (#[trigger] plan.families@[l]).0,
        exists|k: int| 0 <= k < plan.families@.len() && (#[trigger] plan.families@[k]).0 == g,
        exists|k: int| 0 <= k < plan.families@.len() && (#[trigger] plan.families@[k]).0 == c,
        exists|k: int| 0 <= k < plan.families@.len() && (#[trigger] plan.families@[k]).0 == t,
        plan.graphics_queue_index < queues_in_family(g, c, t, g),
        plan.compute_queue_index < queues_in_family(g, c, t, c),
        plan.transfer_queue_index < queues_in_family(g, c, t, t),
        c == g ==> plan.compute_queue_index != plan.graphics_queue_index,
        t == g ==> plan.transfer_queue_index != plan.graphics_queue_index,
        t == c ==> plan.transfer_queue_index != plan.compute_queue_index,
{
    let fs = plan.families@;
    if c == g && t == g {
        assert(fs[0].0 == g);
    } else if c == g {
        assert(fs[0].0 == g && fs[1].0 == t);
    } else if t == g {
        assert(fs[0].0 == g && fs[1].0 == c);
    } else if t == c {
        assert(fs[0].0 == g && fs[1].0 == c);
    } else {
        assert(fs[0].0 == g && fs[1].0 == c && fs[2].0 == t);
    }
}

/// The queue a one-shot command buffer is submitted to.
#[derive(Clone, Copy, PartialEq, Eq, Structural, Debug)]
pub enum QueueKind {
    Graphics,
    Compute,
    Transfer,
}

/// The queue (and its command pool) for one-shot work of type `queue_flags`,
/// which is exactly the compute, the transfer or the graphics bit.
pub fn queue_kind_for(queue_flags: u32) -> (r: QueueKind)
    requires
        queue_flags == QUEUE_COMPUTE_BIT || queue_flags == QUEUE_TRANSFER_BIT || queue_flags == QUEUE_GRAPHICS_BIT,
    ensures
        r == (if queue_flags == QUEUE_COMPUTE_BIT { QueueKind::Compute }
            else if queue_flags == QUEUE_TRANSFER_BIT { QueueKind::Transfer }
            else { QueueKind::Graphics }),
{
    if queue_flags == QUEUE_COMPUTE_BIT {
        QueueKind::Compute
    } else if queue_flags == QUEUE_TRANSFER_BIT {
        QueueKind::Transfer
    } else {
        QueueKind::Graphics
    }
}

/// Mesh slots reserved for vertex blending in the shared descriptor pool.
pub const MAX_VERTEX_BLENDING_MESH_CNT: u32 = 256;
/// Material slots reserved in the shared descriptor pool.
pub const MAX_MATERIAL_CNT: u32 = 256;

/// The sizes of the shared descriptor pool: `(descriptor type, count)` pairs and
/// the number of sets it can hand out.
#[derive(Clone, Debug)]
pub struct DescriptorPoolPlan {
    pub pool_sizes: Vec<(i32, u32)>,
    pub max_sets: u32,
}

/// The shared descriptor pool: room for dynamic storage buffers, storage and
/// uniform buffers and samplers per mesh or material (plus headroom), and a few
/// input attachments, dynamic uniform buffers and storage images.
pub fn descriptor_pool_plan() -> (plan: DescriptorPoolPlan)
    ensures
        plan.pool_sizes@ == seq![
            (DESCRIPTOR_TYPE_STORAGE_BUFFER_DYNAMIC, 128u32),
            (DESCRIPTOR_TYPE_STORAGE_BUFFER, (MAX_VERTEX_BLENDING_MESH_CNT + 32) as u32),
            (DESCRIPTOR_TYPE_UNIFORM_BUFFER, (MAX_MATERIAL_CNT + 32) as u32),
            (DESCRIPTOR_TYPE_COMBINED_IMAGE_SAMPLER, (MAX_MATERIAL_CNT + 32) as u32),
            (DESCRIPTOR_TYPE_INPUT_ATTACHMENT, 32u32),
            (DESCRIPTOR_TYPE_UNIFORM_BUFFER_DYNAMIC, 32u32),
            (DESCRIPTOR_TYPE_STORAGE_IMAGE, 32u32),
        ],
        plan.max_sets == MAX_MATERIAL_CNT + MAX_VERTEX_BLENDING_MESH_CNT + 32,
{
    let mut pool_sizes: Vec<(i32, u32)> = Vec::new();
    pool_sizes.push((DESCRIPTOR_TYPE_STORAGE_BUFFER_DYNAMIC, 128));
    pool_sizes.push((DESCRIPTOR_TYPE_STORAGE_BUFFER, MAX_VERTEX_BLENDING_MESH_CNT + 32));
    pool_sizes.push((DESCRIPTOR_TYPE_UNIFORM_BUFFER, MAX_MATERIAL_CNT + 32));
    pool_sizes.push((DESCRIPTOR_TYPE_COMBINED_IMAGE_SAMPLER, MAX_MATERIAL_CNT + 32));
    pool_sizes.push((DESCRIPTOR_TYPE_INPUT_ATTACHMENT, 32));
    pool_sizes.push((DESCRIPTOR_TYPE_UNIFORM_BUFFER_DYNAMIC, 32));
    pool_sizes.push((DESCRIPTOR_TYPE_STORAGE_IMAGE, 32));
    DescriptorPoolPlan { pool_sizes, max_sets: MAX_MATERIAL_CNT + MAX_VERTEX_BLENDING_MESH_CNT + 32 }
}

} // verus!
