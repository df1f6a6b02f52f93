//! What the renderer asks of the Vulkan instance and device: versions, layers
//! and extensions, and the check that everything asked for is available.

use vstd::prelude::*;
use crate::text::str_chars;
use crate::text::chars_eq;
use crate::debug::default_message_severity;
use crate::debug::default_message_type;
use crate::vkconst::DEBUG_SEVERITY_WARNING_BIT;
use crate::vkconst::DEBUG_SEVERITY_ERROR_BIT;
use crate::vkconst::DEBUG_TYPE_VALIDATION_BIT;
use crate::vkconst::DEBUG_TYPE_PERFORMANCE_BIT;

verus! {

/// The packed Vulkan version number: variant in bits 29 and up, major in bits
/// 22 to 28, minor in bits 12 to 21, patch in the low bits.
pub open spec fn api_version(variant: u32, major: u32, minor: u32, patch: u32) -> u32 {
    (variant << 29u32) | (major << 22u32) | (minor << 12u32) | patch
}

/// Packs a Vulkan version with `ash::vk::make_api_version`, whose definition
/// is `(variant << 29) | (major << 22) | (minor << 12) | patch` on `u32`.
#[verifier::external_body]
fn make_api_version(variant: u32, major: u32, minor: u32, patch: u32) -> (r: u32)
    ensures
        r == api_version(variant, major, minor, patch),
{
    ash::vk::make_api_version(variant, major, minor, patch)
}

/// The name of the engine reported to the driver.
pub open spec fn engine_name() -> Seq<char> {
    "DruvisIII"@
}

/// The renderer's settings for creating the instance and the device.
#[derive(Debug)]
pub struct InitSettings {
    pub app_name: Vec<char>,
    pub engine_name: Vec<char>,
    pub enable_validation: bool,
    pub vk_version: u32,
    pub instance_layers: Vec<Vec<char>>,
    pub instance_extensions: Vec<Vec<char>>,
    pub device_extensions: Vec<Vec<char>>,
    pub debug_msg_severity: u32,
    pub debug_msg_type: u32,
    pub frames_in_flight: u32,
}

/// The views of a list of names.
pub open spec fn names_view(names: Seq<Vec<char>>) -> Seq<Seq<char>> {
    names.map_values(|n: Vec<char>| n@)
}

/// The device extensions the renderer needs: the swapchain, dynamic rendering
/// and what it builds on, and ray tracing with its prerequisites.
pub open spec fn basic_device_extension_names() -> Seq<Seq<char>> {
    seq![
        "VK_KHR_swapchain"@,
        "VK_KHR_depth_stencil_resolve"@,
        "VK_KHR_create_renderpass2"@,
        "VK_KHR_dynamic_rendering"@,
        "VK_KHR_acceleration_structure"@,
        "VK_EXT_descriptor_indexing"@,
        "VK_KHR_buffer_device_address"@,
        "VK_KHR_ray_tracing_pipeline"@,
        "VK_KHR_deferred_host_operations"@,
        "VK_KHR_spirv_1_4"@,
        "VK_KHR_shader_float_controls"@,
    ]
}

proof fn lemma_names_view_push(names: Seq<Vec<char>>, n: Vec<char>)
    ensures
        names_view(names.push(n)) == names_view(names).push(n@),
{
    assert(names_view(names.push(n)) =~= names_view(names).push(n@));
}

fn push_name(names: &mut Vec<Vec<char>>, name: &str)
    ensures
        names_view(final(names)@) == names_view(old(names)@).push(name@),
{
    names.push(str_chars(name));
    assert(names_view(names@) =~= names_view(old(names)@).push(name@));
}

/// The device extensions the renderer needs.
pub fn basic_device_extensions() -> (v: Vec<Vec<char>>)
    ensures
        names_view(v@) == basic_device_extension_names(),
{
    let mut v: Vec<Vec<char>> = Vec::new();
    push_name(&mut v, "VK_KHR_swapchain");
    push_name(&mut v, "VK_KHR_depth_stencil_resolve");
    push_name(&mut v, "VK_KHR_create_renderpass2");
    push_name(&mut v, "VK_KHR_dynamic_rendering");
    push_name(&mut v, "VK_KHR_acceleration_structure");
    push_name(&mut v, "VK_EXT_descriptor_indexing");
    push_name(&mut v, "VK_KHR_buffer_device_address");
    push_name(&mut v, "VK_KHR_ray_tracing_pipeline");
    push_name(&mut v, "VK_KHR_deferred_host_operations");
    push_name(&mut v, "VK_KHR_spirv_1_4");
    push_name(&mut v, "VK_KHR_shader_float_controls");
    assert(names_view(v@) =~= basic_device_extension_names());
    v
}

/// The instance layers: the Khronos validation layer when validation is on,
/// none otherwise.
pub fn basic_instance_layers(enable_validation: bool) -> (v: Vec<Vec<char>>)
    ensures
        enable_validation ==> names_view(v@) == seq!["VK_LAYER_KHRONOS_validation"@],
        !enable_validation ==> v@.len() == 0,
{
    let mut v: Vec<Vec<char>> = Vec::new();
    if enable_validation {
        push_name(&mut v, "VK_LAYER_KHRONOS_validation");
        assert(names_view(v@) =~= seq!["VK_LAYER_KHRONOS_validation"@]);
    }
    v
}

fn copy_name(name: &Vec<char>) -> (r: Vec<char>)
    ensures
        r@ == name@,
{
    let mut r: Vec<char> = Vec::new();
    crate::text::append_chars(&mut r, name);
    r
}

/// The instance extensions: debug utils (debug messenger, object names and
/// labels), the extensions the window system requires, and
/// `VK_KHR_get_physical_device_properties2` (needed for performance queries).
pub fn basic_instance_extensions(window_extensions: &Vec<Vec<char>>) -> (v: Vec<Vec<char>>)
    ensures
        names_view(v@) == seq!["VK_EXT_debug_utils"@] + names_view(window_extensions@)
            + seq!["VK_KHR_get_physical_device_properties2"@],
{
    let mut v: Vec<Vec<char>> = Vec::new();
    push_name(&mut v, "VK_EXT_debug_utils");
    let mut i: usize = 0;
    while i < window_extensions.len()
        invariant
            i <= window_extensions.len(),
            names_view(v@) == seq!["VK_EXT_debug_utils"@] + names_view(window_extensions@.take(i as int)),
        decreases window_extensions.len() - i,
    {
        let ghost v0 = v@;
        let n = copy_name(&window_extensions[i]);
        v.push(n);
        proof {
            lemma_names_view_push(v0, n);
            assert(window_extensions@.take(i + 1) == window_extensions@.take(i as int).push(window_extensions@[i as int]));
            lemma_names_view_push(window_extensions@.take(i as int), window_extensions@[i as int]);
        }
        i = i + 1;
        assert(names_view(v@) =~= seq!["VK_EXT_debug_utils"@] + names_view(window_extensions@.take(i as int)));
    }
    push_name(&mut v, "VK_KHR_get_physical_device_properties2");
    assert(window_extensions@.take(i as int) == window_extensions@);
    assert(names_view(v@) =~= seq!["VK_EXT_debug_utils"@] + names_view(window_extensions@)
        + seq!["VK_KHR_get_physical_device_properties2"@]);
    v
}

impl InitSettings {
    /// The renderer's basic settings for application `app_name`: Vulkan 1.3,
    /// validation as asked, the basic layers and extensions, warnings and errors
    /// of validation and performance reported, three frames in flight.
    pub fn init_basic(app_name: Vec<char>, window_extensions: &Vec<Vec<char>>, enable_validation: bool) -> (s: Self)
        ensures
            s.app_name@ == app_name@,
            s.engine_name@ == engine_name(),
            s.enable_validation == enable_validation,
            s.vk_version == api_version(0, 1, 3, 0),
            enable_validation ==> names_view(s.instance_layers@) == seq!["VK_LAYER_KHRONOS_validation"@],
            !enable_validation ==> s.instance_layers@.len() == 0,
            names_view(s.instance_extensions@) == seq!["VK_EXT_debug_utils"@] + names_view(window_extensions@)
                + seq!["VK_KHR_get_physical_device_properties2"@],
            names_view(s.device_extensions@) == basic_device_extension_names(),
            s.debug_msg_severity == DEBUG_SEVERITY_WARNING_BIT | DEBUG_SEVERITY_ERROR_BIT,
            s.debug_msg_type == DEBUG_TYPE_VALIDATION_BIT | DEBUG_TYPE_PERFORMANCE_BIT,
            s.frames_in_flight == 3,
    {
        InitSettings {
            app_name,
            engine_name: str_chars("DruvisIII"),
            enable_validation,
            vk_version: make_api_version(0, 1, 3, 0),
            instance_layers: basic_instance_layers(enable_validation),
            instance_extensions: basic_instance_extensions(window_extensions),
            device_extensions: basic_device_extensions(),
            debug_msg_severity: default_message_severity(),
            debug_msg_type: default_message_type(),
            frames_in_flight: 3,
        }
    }

    /// Adds instance extensions to the ones asked for; every other setting stays.
    pub fn add_instance_extensions(&mut self, exts: &Vec<Vec<char>>)
        ensures
            names_view(final(self).instance_extensions@) == names_view(old(self).instance_extensions@) + names_view(exts@),
            final(self).instance_layers@ == old(self).instance_layers@,
            final(self).device_extensions@ == old(self).device_extensions@,
            final(self).app_name == old(self).app_name,
            final(self).engine_name == old(self).engine_name,
            final(self).enable_validation == old(self).enable_validation,
            final(self).vk_version == old(self).vk_version,
            final(self).debug_msg_severity == old(self).debug_msg_severity,
            final(self).debug_msg_type == old(self).debug_msg_type,
            final(self).frames_in_flight == old(self).frames_in_flight,
    {
        append_names(&mut self.instance_extensions, exts);
    }

    /// Adds instance layers to the ones asked for; every other setting stays.
    pub fn add_instance_layers(&mut self, layers: &Vec<Vec<char>>)
        ensures
            names_view(final(self).instance_layers@) == names_view(old(self).instance_layers@) + names_view(layers@),
            final(self).instance_extensions@ == old(self).instance_extensions@,
            final(self).device_extensions@ == old(self).device_extensions@,
            final(self).app_name == old(self).app_name,
            final(self).engine_name == old(self).engine_name,
            final(self).enable_validation == old(self).enable_validation,
            final(self).vk_version == old(self).vk_version,
            final(self).debug_msg_severity == old(self).debug_msg_severity,
            final(self).debug_msg_type == old(self).debug_msg_type,
            final(self).frames_in_flight == old(self).frames_in_flight,
    {
        append_names(&mut self.instance_layers, layers);
    }

    /// Adds device extensions to the ones asked for; every other setting stays.
    pub fn add_device_extensions(&mut self, exts: &Vec<Vec<char>>)
        ensures
            names_view(final(self).device_extensions@) == names_view(old(self).device_extensions@) + names_view(exts@),
            final(self).instance_layers@ == old(self).instance_layers@,
            final(self).instance_extensions@ == old(self).instance_extensions@,
            final(self).app_name == old(self).app_name,
            final(self).engine_name == old(self).engine_name,
            final(self).enable_validation == old(self).enable_validation,
            final(self).vk_version == old(self).vk_version,
            final(self).debug_msg_severity == old(self).debug_msg_severity,
            final(self).debug_msg_type == old(self).debug_msg_type,
            final(self).frames_in_flight == old(self).frames_in_flight,
    {
        append_names(&mut self.device_extensions, exts);
    }
}

fn append_names(dst: &mut Vec<Vec<char>>, src: &Vec<Vec<char>>)
    ensures
        names_view(final(dst)@) == names_view(old(dst)@) + names_view(src@),
{
    let mut i: usize = 0;
    while i < src.len()
        invariant
            i <= src.len(),
            names_view(dst@) == names_view(old(dst)@) + names_view(src@.take(i as int)),
        decreases src.len() - i,
    {
        let ghost d0 = dst@;
        let n = copy_name(&src[i]);
        dst.push(n);
        proof {
            lemma_names_view_push(d0, n);
            assert(src@.take(i + 1) == src@.take(i as int).push(src@[i as int]));
            lemma_names_view_push(src@.take(i as int), src@[i as int]);
        }
        i = i + 1;
        assert(names_view(dst@) =~= names_view(old(dst)@) + names_view(src@.take(i as int)));
    }
    assert(src@.take(i as int) == src@);
}

/// `names` lists `name`.
fn contains_name(names: &Vec<Vec<char>>, name: &Vec<char>) -> (r: bool)
    ensures
        r == names_view(names@).contains(name@),
{
    let mut i: usize = 0;
    while i < names.len()
        invariant
            i <= names.len(),
            forall|j: int| 0 <= j < i ==> names@[j]@ != name@,
        decreases names.len() - i,
    {
        if chars_eq(&names[i], name) {
            assert(names_view(names@)[i as int] == name@);
            return true;
        }
        i = i + 1;
    }
    assert(!names_view(names@).contains(name@)) by {
        if names_view(names@).contains(name@) {
            let j = choose|j: int| 0 <= j < names_view(names@).len() && names_view(names@)[j] == name@;
            assert(names@[j]@ == name@);
        }
    }
    false
}

/// The names without repetitions, each at its first occurrence.
pub open spec fn dedup(names: Seq<Seq<char>>) -> Seq<Seq<char>>
    decreases names.len(),
{
    if names.len() == 0 {
        Seq::empty()
    } else {
        let d = dedup(names.drop_last());
        if d.contains(names.last()) { d } else { d.push(names.last()) }
    }
}

/// The first name of `requested` that `supported` does not list, if any.
pub open spec fn first_missing(requested: Seq<Seq<char>>, supported: Seq<Seq<char>>) -> Option<Seq<char>>
    decreases requested.len(),
{
    if requested.len() == 0 {
        None
    } else {
        match first_missing(requested.drop_last(), supported) {
            Some(n) => Some(n),
            None => if supported.contains(requested.last()) { None } else { Some(requested.last()) },
        }
    }
}

/// What the instance is created with.
#[derive(Debug)]
pub struct InstancePlan {
    pub api_version: u32,
    pub application_version: u32,
    pub engine_version: u32,
    /// The extensions to enable, each once.
    pub extensions: Vec<Vec<char>>,
    /// The layers to enable, in the order asked for.
    pub layers: Vec<Vec<char>>,
    /// Whether the debug messenger is chained to instance creation, so that
    /// instance creation itself is validated.
    pub chain_debug_messenger: bool,
}

/// The first name of `requested` that `supported` does not list, if any: a
/// required extension or layer that is missing, so that the instance cannot be
/// created.
pub fn first_missing_name(requested: &Vec<Vec<char>>, supported: &Vec<Vec<char>>) -> (r: Option<Vec<char>>)
    ensures
        match first_missing(names_view(requested@), names_view(supported@)) {
            Some(n) => r matches Some(e) && e@ == n,
            None => r is None,
        },
{
    let mut i: usize = 0;
    while i < requested.len()
        invariant
            i <= requested.len(),
            first_missing(names_view(requested@.take(i as int)), names_view(supported@)) is None,
        decreases requested.len() - i,
    {
        let name = &requested[i];
        proof {
            assert(names_view(requested@.take(i + 1)).drop_last() == names_view(requested@.take(i as int)));
            assert(names_view(requested@.take(i + 1)).last() == name@);
        }
        if !contains_name(supported, name) {
            proof {
                lemma_first_missing_prefix(names_view(requested@), names_view(supported@), i + 1);
                assert(names_view(requested@.take(i + 1)) == names_view(requested@).take(i + 1));
            }
            return Some(copy_name(name));
        }
        i = i + 1;
    }
    assert(requested@.take(i as int) == requested@);
    None
}

/// The names without repetitions, each kept where it first occurs (the set of
/// instance extensions to enable).
pub fn dedup_names(names: &Vec<Vec<char>>) -> (r: Vec<Vec<char>>)
    ensures
        names_view(r@) == dedup(names_view(names@)),
{
    let mut out: Vec<Vec<char>> = Vec::new();
    let mut i: usize = 0;
    while i < names.len()
        invariant
            i <= names.len(),
            names_view(out@) == dedup(names_view(names@.take(i as int))),
        decreases names.len() - i,
    {
        let name = &names[i];
        proof {
            assert(names_view(names@.take(i + 1)).drop_last() == names_view(names@.take(i as int)));
            assert(names_view(names@.take(i + 1)).last() == name@);
        }
        if !contains_name(&out, name) {
            out.push(copy_name(name));
            assert(names_view(out@) =~= dedup(names_view(names@.take(i + 1))));
        }
        i = i + 1;
    }
    assert(names@.take(i as int) == names@);
    out
}

proof fn lemma_first_missing_prefix(requested: Seq<Seq<char>>, supported: Seq<Seq<char>>, k: int)
    requires
        0 <= k <= requested.len(),
        first_missing(requested.take(k), supported) is Some,
    ensures
        first_missing(requested, supported) == first_missing(requested.take(k), supported),
    decreases requested.len(),
{
    if k < requested.len() {
        assert(requested.drop_last().take(k) == requested.take(k));
        lemma_first_missing_prefix(requested.drop_last(), supported, k);
    } else {
        assert(requested.take(k) == requested);
    }
}

/// What the availability check answers: nothing is missing exactly when every
/// requested name is supported; a reported name is a requested one that is not
/// supported, and every name requested before its first request is supported.
pub proof fn lemma_first_missing_is_first_unsupported(requested: Seq<Seq<char>>, supported: Seq<Seq<char>>)
    ensures
        first_missing(requested, supported) is None <==> (forall|i: int| 0 <= i < requested.len() ==> supported.contains(#[trigger] requested[i])),
        first_missing(requested, supported) matches Some(n) ==> exists|i: int| {
            &&& 0 <= i < requested.len()
            &&& #[trigger] requested[i] == n
            &&& !supported.contains(n)
            &&& forall|j: int| 0 <= j < i ==> supported.contains(#[trigger] requested[j])
        },
    decreases requested.len(),
{
    if requested.len() > 0 {
        let prev = requested.drop_last();
        lemma_first_missing_is_first_unsupported(prev, supported);
        let last = requested.len() - 1;
        assert forall|i: int| 0 <= i < prev.len() implies prev[i] == requested[i] by {}
        match first_missing(prev, supported) {
            Some(n) => {
                let i = choose|i: int| {
                    &&& 0 <= i < prev.len()
                    &&& #[trigger] prev[i] == n
                    &&& !supported.contains(n)
                    &&& forall|j: int| 0 <= j < i ==> supported.contains(#[trigger] prev[j])
                };
                assert(requested[i] == n);
                assert forall|j: int| 0 <= j < i implies supported.contains(#[trigger] requested[j]) by {
                    assert(prev[j] == requested[j]);
                }
                assert(!supported.contains(requested[i]));
            },
            None => {
                assert forall|i: int| 0 <= i < last implies supported.contains(#[trigger] requested[i]) by {
                    assert(prev[i] == requested[i]);
                    assert(supported.contains(prev[i]));
                }
                if !supported.contains(requested.last()) {
                    assert(requested[last] == requested.last());
                }
            },
        }
    }
}

/// Every requested name is enabled exactly once: the deduplicated list holds no
/// name twice, and holds exactly the names of the original list.
pub proof fn lemma_dedup_unique_and_complete(names: Seq<Seq<char>>)
    ensures
        dedup(names).no_duplicates(),
        forall|n: Seq<char>| dedup(names).contains(n) <==> names.contains(n),
    decreases names.len(),
{
    if names.len() > 0 {
        let prev = names.drop_last();
        lemma_dedup_unique_and_complete(prev);
        let d = dedup(prev);
        assert forall|n: Seq<char>| dedup(names).contains(n) <==> names.contains(n) by {
            if names.contains(n) && !prev.contains(n) {
                let i = choose|i: int| 0 <= i < names.len() && names[i] == n;
                if i < names.len() - 1 {
                    assert(prev[i] == n);
                }
                assert(n == names.last());
            }
            if prev.contains(n) {
                let i = choose|i: int| 0 <= i < prev.len() && prev[i] == n;
                assert(names[i] == n);
            }
            if !d.contains(names.last()) {
                assert(dedup(names) == d.push(names.last()));
                if d.push(names.last()).contains(n) && n != names.last() {
                    let i = choose|i: int| 0 <= i < d.len() + 1 && d.push(names.last())[i] == n;
                    assert(d[i] == n);
                }
                if n == names.last() {
                    assert(d.push(names.last())[d.len() as int] == n);
                }
                if d.contains(n) {
                    let i = choose|i: int| 0 <= i < d.len() && d[i] == n;
                    assert(d.push(names.last())[i] == n);
                }
            }
        }
        if !d.contains(names.last()) {
            assert(dedup(names) == d.push(names.last()));
            assert forall|i: int, j: int| 0 <= i < j < d.len() + 1 implies
                d.push(names.last())[i] != d.push(names.last())[j] by {
                if j == d.len() {
                    assert(d[i] == d.push(names.last())[i]);
                }
            }
        }
    }
}

/// Plans the instance: the Vulkan version of the settings, application and
/// engine version 1.0.0, the requested extensions (each once) and layers (as
/// asked), and the debug messenger chained when validation is on. Every
/// requested extension and layer must be available; `first_missing_name`
/// tells which is not.
pub fn plan_instance(settings: &InitSettings) -> (p: InstancePlan)
    ensures
        p.api_version == settings.vk_version,
        p.application_version == api_version(0, 1, 0, 0),
        p.engine_version == api_version(0, 1, 0, 0),
        names_view(p.extensions@) == dedup(names_view(settings.instance_extensions@)),
        names_view(p.layers@) == names_view(settings.instance_layers@),
        p.chain_debug_messenger == settings.enable_validation,
{
    let extensions = dedup_names(&settings.instance_extensions);
    let mut layers: Vec<Vec<char>> = Vec::new();
    append_names(&mut layers, &settings.instance_layers);
    assert(names_view(layers@) =~= names_view(settings.instance_layers@));
    InstancePlan {
        api_version: settings.vk_version,
        application_version: make_api_version(0, 1, 0, 0),
        engine_version: make_api_version(0, 1, 0, 0),
        extensions,
        layers,
        chain_debug_messenger: settings.enable_validation,
    }
}

} // verus!
