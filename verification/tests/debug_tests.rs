use truvis_render::debug::log_level_for;
use truvis_render::debug::LogLevel;
use truvis_render::debug::format_validation_message;
use truvis_render::debug::format_validation_message_with;
use truvis_render::debug::format_plain_message;
use truvis_render::debug::default_message_severity;
use truvis_render::debug::default_message_type;
use truvis_render::debug::debug_object_name;
use ash::vk;

fn chars(t: &str) -> Vec<char> {
    t.chars().collect()
}

fn s(v: &[char]) -> String {
    v.iter().collect()
}

#[test]
fn severities_map_to_log_levels() {
    assert_eq!(log_level_for(vk::DebugUtilsMessageSeverityFlagsEXT::ERROR.as_raw()), LogLevel::Error);
    assert_eq!(log_level_for(vk::DebugUtilsMessageSeverityFlagsEXT::WARNING.as_raw()), LogLevel::Warn);
    assert_eq!(log_level_for(vk::DebugUtilsMessageSeverityFlagsEXT::INFO.as_raw()), LogLevel::Info);
    assert_eq!(log_level_for(vk::DebugUtilsMessageSeverityFlagsEXT::VERBOSE.as_raw()), LogLevel::Info);
    let both = (vk::DebugUtilsMessageSeverityFlagsEXT::ERROR | vk::DebugUtilsMessageSeverityFlagsEXT::WARNING).as_raw();
    assert_eq!(log_level_for(both), LogLevel::Info);
}

#[test]
fn validation_message_is_split_into_lines() {
    let msg = chars("Validation Error: [ VUID-x ] Object 0: handle = 0x1 | MessageID = 0x2 | text");
    let out = format_validation_message_with(&chars("VALIDATION"), &msg);
    assert_eq!(
        s(&out),
        "[VALIDATION]\n Validation Error: [ VUID-x ]\n Object 0: handle = 0x1 \n MessageID = 0x2 \n text\n"
    );
}

#[test]
fn validation_message_uses_the_bindings_flag_names() {
    let vp = (vk::DebugUtilsMessageTypeFlagsEXT::VALIDATION | vk::DebugUtilsMessageTypeFlagsEXT::PERFORMANCE).as_raw();
    assert_eq!(s(&format_validation_message(vp, &chars("a|b"))), "[VALIDATION | PERFORMANCE]\n a\nb\n");
    assert_eq!(s(&format_plain_message(vk::DebugUtilsMessageTypeFlagsEXT::GENERAL.as_raw(), &chars("a|b"))), "[GENERAL]\na|b\n");
}

#[test]
fn plain_text_passes_unchanged() {
    assert_eq!(s(&format_validation_message_with(&chars("T"), &chars("no breaks here"))), "[T]\n no breaks here\n");
    assert_eq!(s(&format_validation_message_with(&chars("T"), &chars(""))), "[T]\n \n");
    // overlapping " ] ] " only breaks the first occurrence
    assert_eq!(s(&format_validation_message_with(&chars("T"), &chars("x ] ] y"))), "[T]\n x ]\n ] y\n");
}

#[test]
fn default_message_filters() {
    assert_eq!(
        default_message_severity(),
        (vk::DebugUtilsMessageSeverityFlagsEXT::WARNING | vk::DebugUtilsMessageSeverityFlagsEXT::ERROR).as_raw()
    );
    assert_eq!(
        default_message_type(),
        (vk::DebugUtilsMessageTypeFlagsEXT::VALIDATION | vk::DebugUtilsMessageTypeFlagsEXT::PERFORMANCE).as_raw()
    );
}

#[test]
fn debug_object_names() {
    assert_eq!(s(&debug_object_name(&chars(""))), "empty-debug-name");
    assert_eq!(s(&debug_object_name(&chars("depth-image"))), "depth-image");
}
