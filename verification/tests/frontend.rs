use tauri_plugin_decoration::frontend::target_tokens;
use tauri_plugin_decoration::frontend::{
    cancel_script, dispatch_script, frame_cancel_script, prepare_script, Platform,
};
use tauri_plugin_decoration::lifecycle::FrontendTarget;

#[test]
fn native_events_dispatch_only_to_the_exact_frontend_target() {
    let target = FrontendTarget::from_values(u64::MAX, u64::MAX - 1).unwrap();
    let payload = serde_json::to_string(&(12, -4)).unwrap();
    let script = dispatch_script(target, "snap-mousemove", &payload).unwrap();

    assert_eq!(
        script,
        "void window.__TAURI_PLUGIN_DECORATION__?.dispatch(\"18446744073709551615\",\"18446744073709551614\",\"snap-mousemove\",[12,-4]);"
    );
    assert!(!script.contains("emit"));
}

#[test]
fn cancellation_targets_only_the_exact_frontend_installation() {
    let target = FrontendTarget::from_values(u64::MAX, u64::MAX - 1).unwrap();
    assert_eq!(
        cancel_script(target).unwrap(),
        "void window.__TAURI_PLUGIN_DECORATION__?.cancel(\"18446744073709551615\",\"18446744073709551614\");"
    );
}

#[test]
fn event_names_are_written_as_escaped_json_strings() {
    let target = FrontendTarget::from_values(1, 2).unwrap();
    let script = dispatch_script(target, "a\"b\\c\n\u{1}", "null").unwrap();
    assert_eq!(
        script,
        "void window.__TAURI_PLUGIN_DECORATION__?.dispatch(\"1\",\"2\",\"a\\\"b\\\\c\\n\\u0001\",null);"
    );
}

#[test]
fn scripts_are_framed_around_their_json_parts() {
    assert_eq!(
        frame_cancel_script("\"3\"", "\"4\""),
        "void window.__TAURI_PLUGIN_DECORATION__?.cancel(\"3\",\"4\");"
    );
    assert_eq!(
        prepare_script("core();", "adapter();", "{\"platform\":\"macos\"}"),
        "core();\nadapter();\nvoid window.__TAURI_PLUGIN_DECORATION__.install({\"platform\":\"macos\"});"
    );
    assert_eq!(Platform::Macos.name(), "macos");
    assert_eq!(Platform::Windows.name(), "windows");
    assert_eq!(Platform::Linux.name(), "linux");
}

#[test]
fn installer_tokens_are_full_width_decimals() {
    let target = FrontendTarget::from_values(u64::MAX, 10).unwrap();
    assert_eq!(
        target_tokens(target),
        ("18446744073709551615".to_string(), "10".to_string())
    );
}
