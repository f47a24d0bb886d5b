use tauri_plugin_decoration::layout::{
    backend_from_display_type, bounded_scale, gtk_window_controls, parse_decoration_layout,
    png_data_url, window_controls, Backend, ControlLayout,
};

const ALL_CONTROLS: &[&str] = &["minimize", "maximize", "close"];

#[test]
fn effective_layout_preserves_left_and_right_sides() {
    assert_eq!(
        parse_decoration_layout(Some("close:minimize,maximize"), ALL_CONTROLS).unwrap(),
        ControlLayout {
            left: vec!["close"],
            right: vec!["minimize", "maximize"],
        }
    );
    assert_eq!(
        parse_decoration_layout(Some("close,minimize,maximize:"), ALL_CONTROLS).unwrap(),
        ControlLayout {
            left: vec!["close", "minimize", "maximize"],
            right: vec![],
        }
    );
}

#[test]
fn layout_ignores_menu_tokens_filters_unavailable_controls_and_deduplicates() {
    assert_eq!(
        parse_decoration_layout(
            Some("menu,close:minimize,maximize,close,appmenu"),
            &["minimize", "close"],
        )
        .unwrap(),
        ControlLayout {
            left: vec!["close"],
            right: vec!["minimize"],
        }
    );
}

#[test]
fn missing_layout_uses_a_deterministic_right_side_fallback() {
    assert_eq!(
        parse_decoration_layout(None, &["minimize", "close"]).unwrap(),
        ControlLayout {
            left: vec![],
            right: vec!["minimize", "close"],
        }
    );
}

#[test]
fn malformed_or_control_free_explicit_layout_fails_closed() {
    for layout in ["", "menu,appmenu:", "close:minimize:extra"] {
        assert!(parse_decoration_layout(Some(layout), ALL_CONTROLS).is_err());
    }
    assert!(parse_decoration_layout(Some("maximize:"), &["close"]).is_err());
}

#[test]
fn layout_errors_name_their_cause_and_names_are_trimmed() {
    assert_eq!(
        parse_decoration_layout(Some("close"), ALL_CONTROLS),
        Err("GTK decoration layout must contain exactly one ':' separator".to_string())
    );
    assert_eq!(
        parse_decoration_layout(Some("menu:"), ALL_CONTROLS),
        Err("GTK decoration layout exposes no available window controls".to_string())
    );
    assert_eq!(
        parse_decoration_layout(Some(" close :\tminimize , maximize "), ALL_CONTROLS).unwrap(),
        ControlLayout {
            left: vec!["close"],
            right: vec!["minimize", "maximize"],
        }
    );
}

#[test]
fn only_a_real_wayland_display_enables_custom_linux_decorations() {
    assert_eq!(
        backend_from_display_type("GdkWaylandDisplay").unwrap(),
        Backend::Wayland
    );
    for unsupported in [
        "GdkX11Display",
        "GdkBroadwayDisplay",
        "GdkQuartzDisplay",
        "FutureDisplay",
    ] {
        assert!(backend_from_display_type(unsupported).is_err());
    }
}

#[test]
fn icon_scale_is_bounded_before_theme_rasterization() {
    assert_eq!(bounded_scale(-1), 1);
    assert_eq!(bounded_scale(1), 1);
    assert_eq!(bounded_scale(2), 2);
    assert_eq!(bounded_scale(99), 4);
}

#[test]
fn window_controls_follow_the_window_capabilities() {
    assert_eq!(
        window_controls(true, true, true, true),
        ["minimize", "maximize", "close"]
    );
    assert_eq!(window_controls(true, true, false, true), ["minimize", "close"]);
    assert_eq!(window_controls(false, true, true, false), ["maximize"]);
    assert_eq!(gtk_window_controls(false, true), ["minimize", "close"]);
    assert_eq!(gtk_window_controls(true, false), ["minimize", "maximize"]);
}

#[test]
fn png_icons_are_embedded_as_base64_data_urls() {
    assert_eq!(png_data_url(b"hi!"), "data:image/png;base64,aGkh");
    assert_eq!(png_data_url(b"\x89PNG"), "data:image/png;base64,iVBORw==");
    assert_eq!(png_data_url(b""), "data:image/png;base64,");
}
