use truvis_render::instance::InitSettings;
use truvis_render::instance::plan_instance;
use truvis_render::instance::first_missing_name;
use truvis_render::instance::dedup_names;
use truvis_render::instance::basic_device_extensions;
use truvis_render::instance::basic_instance_layers;
use ash::vk;

fn chars(t: &str) -> Vec<char> {
    t.chars().collect()
}

fn names(v: &[&str]) -> Vec<Vec<char>> {
    v.iter().map(|n| chars(n)).collect()
}

fn strs(v: &[Vec<char>]) -> Vec<String> {
    v.iter().map(|n| n.iter().collect()).collect()
}

#[test]
fn device_extensions_match_the_bindings() {
    let want = vec![
        ash::khr::swapchain::NAME.to_str().unwrap().to_string(),
        ash::khr::depth_stencil_resolve::NAME.to_str().unwrap().to_string(),
        ash::khr::create_renderpass2::NAME.to_str().unwrap().to_string(),
        ash::khr::dynamic_rendering::NAME.to_str().unwrap().to_string(),
        ash::khr::acceleration_structure::NAME.to_str().unwrap().to_string(),
        ash::ext::descriptor_indexing::NAME.to_str().unwrap().to_string(),
        ash::khr::buffer_device_address::NAME.to_str().unwrap().to_string(),
        ash::khr::ray_tracing_pipeline::NAME.to_str().unwrap().to_string(),
        ash::khr::deferred_host_operations::NAME.to_str().unwrap().to_string(),
        ash::khr::spirv_1_4::NAME.to_str().unwrap().to_string(),
        ash::khr::shader_float_controls::NAME.to_str().unwrap().to_string(),
    ];
    assert_eq!(strs(&basic_device_extensions()), want);
}

#[test]
fn basic_settings() {
    let window = names(&["VK_KHR_surface", "VK_KHR_xlib_surface"]);
    let s = InitSettings::init_basic(chars("Truvis"), &window, true);
    assert_eq!(s.vk_version, vk::API_VERSION_1_3);
    assert_eq!(s.engine_name.iter().collect::<String>(), "DruvisIII");
    assert_eq!(strs(&s.instance_layers), vec!["VK_LAYER_KHRONOS_validation"]);
    assert_eq!(
        strs(&s.instance_extensions),
        vec![
            ash::ext::debug_utils::NAME.to_str().unwrap().to_string(),
            "VK_KHR_surface".to_string(),
            "VK_KHR_xlib_surface".to_string(),
            ash::khr::get_physical_device_properties2::NAME.to_str().unwrap().to_string(),
        ]
    );
    assert_eq!(s.frames_in_flight, 3);
    let s = InitSettings::init_basic(chars("Truvis"), &vec![], false);
    assert!(s.instance_layers.is_empty());
    assert!(basic_instance_layers(false).is_empty());
}

#[test]
fn adding_names_appends() {
    let mut s = InitSettings::init_basic(chars("app"), &vec![], false);
    s.add_instance_layers(&names(&["L1"]));
    s.add_instance_extensions(&names(&["E1"]));
    s.add_device_extensions(&names(&["D1", "D2"]));
    assert_eq!(strs(&s.instance_layers), vec!["L1"]);
    assert_eq!(strs(&s.instance_extensions).last().unwrap(), "E1");
    assert_eq!(s.device_extensions.len(), 13);
    // the other settings stay
    assert_eq!(strs(&[s.app_name.clone()]), vec!["app"]);
    assert!(!s.enable_validation);
    assert_eq!(s.vk_version, vk::API_VERSION_1_3);
    assert_eq!(s.frames_in_flight, 3);
}

#[test]
fn instance_plan_when_everything_is_supported() {
    let mut s = InitSettings::init_basic(chars("app"), &names(&["VK_KHR_surface", "VK_EXT_debug_utils"]), true);
    s.add_instance_layers(&names(&["VK_LAYER_KHRONOS_validation"]));
    let supported_ext = names(&[
        "VK_KHR_get_physical_device_properties2",
        "VK_EXT_debug_utils",
        "VK_KHR_surface",
    ]);
    let supported_layers = names(&["VK_LAYER_KHRONOS_validation"]);
    assert!(first_missing_name(&s.instance_extensions, &supported_ext).is_none());
    assert!(first_missing_name(&s.instance_layers, &supported_layers).is_none());
    let p = plan_instance(&s);
    assert_eq!(p.api_version, vk::API_VERSION_1_3);
    assert_eq!(p.application_version, vk::make_api_version(0, 1, 0, 0));
    assert_eq!(p.engine_version, vk::make_api_version(0, 1, 0, 0));
    // debug utils was asked for twice; it is enabled once
    assert_eq!(
        strs(&p.extensions),
        vec!["VK_EXT_debug_utils", "VK_KHR_surface", "VK_KHR_get_physical_device_properties2"]
    );
    // layers keep their repetitions
    assert_eq!(strs(&p.layers), vec!["VK_LAYER_KHRONOS_validation", "VK_LAYER_KHRONOS_validation"]);
    assert!(p.chain_debug_messenger);
}

#[test]
fn missing_extension_and_layer_are_named() {
    let s = InitSettings::init_basic(chars("app"), &names(&["VK_KHR_wayland_surface"]), true);
    let supported_ext = names(&["VK_EXT_debug_utils", "VK_KHR_get_physical_device_properties2"]);
    let missing = first_missing_name(&s.instance_extensions, &supported_ext).unwrap();
    assert_eq!(missing.iter().collect::<String>(), "VK_KHR_wayland_surface");
    let missing = first_missing_name(&s.instance_layers, &vec![]).unwrap();
    assert_eq!(missing.iter().collect::<String>(), "VK_LAYER_KHRONOS_validation");
}

#[test]
fn first_missing_name_is_reported() {
    let req = names(&["a", "b", "c"]);
    let sup = names(&["a"]);
    assert_eq!(first_missing_name(&req, &sup).unwrap().iter().collect::<String>(), "b");
    assert!(first_missing_name(&vec![], &sup).is_none());
    assert!(first_missing_name(&names(&["a", "a"]), &sup).is_none());
}

#[test]
fn dedup_keeps_first_occurrences() {
    let v = names(&["x", "y", "x", "z", "y"]);
    assert_eq!(strs(&dedup_names(&v)), vec!["x", "y", "z"]);
    assert_eq!(strs(&dedup_names(&vec![])), Vec::<String>::new());
}
