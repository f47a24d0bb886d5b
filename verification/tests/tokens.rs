use tauri_plugin_decoration::commands::{parse_acknowledgement, primary_webview_labels_match};
use tauri_plugin_decoration::lifecycle::{DocumentToken, FrontendTarget, Generation};
use tauri_plugin_decoration::tokens::{decimal_string, parse_frontend_token};

#[test]
fn frontend_tokens_are_canonical_nonzero_u64_values() {
    assert_eq!(parse_frontend_token("1"), Ok(1));
    assert_eq!(parse_frontend_token(&u64::MAX.to_string()), Ok(u64::MAX));
    for invalid in ["", "0", "01", "+1", "1.0", "18446744073709551616"] {
        assert!(parse_frontend_token(invalid).is_err(), "{invalid}");
    }
}

#[test]
fn token_errors_distinguish_spelling_from_range() {
    assert_eq!(
        parse_frontend_token("١"),
        Err("decoration acknowledgement contains a non-canonical token".to_string())
    );
    assert_eq!(
        parse_frontend_token("99999999999999999999"),
        Err("decoration acknowledgement token is out of range".to_string())
    );
}

#[test]
fn decimal_spelling_round_trips_through_the_token_parser() {
    for value in [1u64, 9, 10, 42, 1_000_000, u64::MAX - 1, u64::MAX] {
        let spelled = decimal_string(value);
        assert_eq!(spelled, value.to_string());
        assert_eq!(parse_frontend_token(&spelled), Ok(value));
    }
    assert_eq!(decimal_string(0), "0");
}

#[test]
fn only_the_native_windows_primary_webview_can_drive_its_decoration() {
    assert!(primary_webview_labels_match("main", "main"));
    assert!(!primary_webview_labels_match("sidebar", "main"));
    assert!(!primary_webview_labels_match("main", "other-window"));
}

#[test]
fn acknowledgements_name_their_target_only_from_the_primary_webview() {
    assert_eq!(
        parse_acknowledgement("main", "main", "7", "11"),
        Ok(FrontendTarget {
            window: Generation::from_raw(7),
            document: DocumentToken::from_raw(11),
        })
    );
    assert_eq!(
        parse_acknowledgement("sidebar", "main", "7", "11"),
        Err("decoration commands are limited to the native window's primary webview".to_string())
    );
    assert_eq!(
        parse_acknowledgement("main", "main", "07", "11"),
        Err("decoration acknowledgement contains a non-canonical token".to_string())
    );
    assert_eq!(
        parse_acknowledgement("main", "main", "7", "0"),
        Err("decoration acknowledgement contains a non-canonical token".to_string())
    );
}
