use tauri_plugin_decoration::dconf::{parse_button_layout, read_button_layout};

#[test]
fn parse_button_layout_ignores_appmenu_and_keeps_window_controls() {
    assert_eq!(
        parse_button_layout("appmenu:minimize,maximize,close"),
        ["minimize", "maximize", "close"]
    );
}

#[test]
fn parse_button_layout_keeps_left_side_controls_when_right_side_is_empty() {
    assert_eq!(
        parse_button_layout("close,minimize,maximize:"),
        ["close", "minimize", "maximize"]
    );
}

#[test]
fn parse_button_layout_returns_empty_for_unusable_values() {
    assert!(parse_button_layout("").is_empty());
    assert!(parse_button_layout("appmenu:").is_empty());
}

#[test]
fn parse_button_layout_keeps_repeated_and_exact_names_only() {
    assert_eq!(
        parse_button_layout("close:close, minimize,Maximize,maximize"),
        ["close", "close", "maximize"]
    );
}

#[test]
fn dconf_output_is_unquoted_and_trimmed_before_parsing() {
    assert_eq!(
        read_button_layout(Some("'appmenu:minimize,close'\n")),
        Some(vec!["minimize".to_string(), "close".to_string()])
    );
    assert_eq!(
        read_button_layout(Some("\u{3000} \"close\"\t")),
        Some(vec!["close".to_string()])
    );
}

#[test]
fn failed_empty_or_control_free_dconf_output_yields_no_layout() {
    assert_eq!(read_button_layout(None), None);
    assert_eq!(read_button_layout(Some("")), None);
    assert_eq!(read_button_layout(Some("''\n")), None);
    assert_eq!(read_button_layout(Some("'appmenu:'\n")), None);
}
