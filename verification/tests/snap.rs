use tauri_plugin_decoration::snap::overlay_teardown_result;
use tauri_plugin_decoration::snap::{pointer_from_lparam, snap_overlay_index};
use tauri_plugin_decoration::snap::{
    entered, overlay_x, scaled, validate_geometry, Geometry, Notice, Registry, SnapEvent,
};

#[test]
fn duplicate_install_is_rejected_without_replacing_the_original() {
    let mut registry = Registry::new();
    registry.insert(10, 100, Geometry::new(32, 58, 1)).unwrap();

    assert!(registry.insert(10, 101, Geometry::new(40, 60, 0)).is_err());

    assert_eq!(registry.position(10).unwrap().overlay(), 100);
}

#[test]
fn pointer_transitions_are_ordered_and_duplicate_moves_are_suppressed() {
    let mut registry = Registry::new();
    registry.insert(10, 100, Geometry::new(32, 58, 1)).unwrap();

    let mut events = Vec::new();
    let first_move = registry.mouse_move(100, 4, 5);
    assert!(entered(&first_move));
    events.extend(first_move);
    events.extend(registry.mouse_move(100, 4, 5));
    events.extend(registry.mouse_down(100));
    events.extend(registry.mouse_up(100));
    events.extend(registry.mouse_leave(100));

    assert_eq!(
        events,
        [
            Notice::Move(4, 5),
            Notice::Event(SnapEvent::MouseEnter),
            Notice::Event(SnapEvent::MouseDown),
            Notice::Event(SnapEvent::MouseUp),
            Notice::Event(SnapEvent::Click),
            Notice::Event(SnapEvent::MouseLeave),
        ]
    );
}

#[test]
fn fullscreen_changes_are_deduped_and_expose_native_visibility_state() {
    let mut registry = Registry::new();
    registry.insert(10, 100, Geometry::new(32, 58, 1)).unwrap();

    let mut events = Vec::new();
    let (entered_position, notices) = registry
        .set_fullscreen(10, true)
        .expect("first fullscreen transition");
    assert!(entered_position.fullscreen());
    assert_eq!(entered_position.overlay(), 100);
    events.extend(notices);
    assert!(registry.set_fullscreen(10, true).is_none());

    let (exited, notices) = registry.set_fullscreen(10, false).expect("fullscreen exit");
    assert!(!exited.fullscreen());
    events.extend(notices);

    assert_eq!(
        events,
        [
            Notice::Event(SnapEvent::FullscreenEnter),
            Notice::Event(SnapEvent::FullscreenExit),
        ]
    );
}

#[test]
fn failed_fullscreen_transition_can_be_rolled_back_and_retried() {
    let mut registry = Registry::new();
    registry.insert(10, 100, Geometry::new(32, 58, 1)).unwrap();
    let _enter = registry.set_fullscreen(10, true).expect("fullscreen entry");

    let _failed_exit = registry
        .set_fullscreen(10, false)
        .expect("first fullscreen exit");
    assert!(registry.rollback_fullscreen(10, false));
    assert!(registry.position(10).unwrap().fullscreen());
    assert!(registry.set_fullscreen(10, false).is_some());
}

#[test]
fn removing_an_unexpected_overlay_invalidates_its_parent_entry() {
    let mut registry = Registry::new();
    registry.insert(10, 100, Geometry::new(32, 58, 1)).unwrap();

    let removed = registry.remove_overlay(100).expect("registered overlay");

    assert_eq!(removed.parent(), 10);
    assert_eq!(removed.overlay(), 100);
    assert!(registry.position(10).is_none());
}

#[test]
fn position_is_an_owned_snapshot_of_the_geometry() {
    let mut registry = Registry::new();
    registry.insert(10, 100, Geometry::new(32, 58, 2)).unwrap();

    let position = registry.position(10).unwrap();
    let _removed = registry.remove_parent(10).unwrap();

    assert_eq!(position.overlay(), 100);
    assert_eq!(position.titlebar_height(), 32);
    assert_eq!(position.button_width(), 58);
    assert_eq!(position.right_index(), 2);
}

#[test]
fn native_event_names_are_closed_over_the_frontend_dispatcher_contract() {
    assert_eq!(SnapEvent::MouseEnter.as_str(), "snap-mouseenter");
    assert_eq!(SnapEvent::MouseLeave.as_str(), "snap-mouseleave");
    assert_eq!(SnapEvent::MouseDown.as_str(), "snap-mousedown");
    assert_eq!(SnapEvent::MouseUp.as_str(), "snap-mouseup");
    assert_eq!(SnapEvent::Click.as_str(), "snap-click");
}

#[test]
fn unknown_overlays_raise_nothing_and_leaving_cancels_a_click() {
    let mut registry = Registry::new();
    registry.insert(10, 100, Geometry::new(32, 58, 1)).unwrap();
    assert!(registry.mouse_move(999, 1, 1).is_empty());
    assert!(registry.mouse_leave(100).is_empty());
    registry.mouse_down(100);
    assert_eq!(
        registry.mouse_leave(100),
        [Notice::Event(SnapEvent::MouseLeave)]
    );
    assert_eq!(registry.mouse_up(100), [Notice::Event(SnapEvent::MouseUp)]);
    assert_eq!(registry.parent_for_overlay(100), Some(10));
    assert_eq!(registry.parent_for_overlay(101), None);
}

#[test]
fn overlay_geometry_is_bounded_and_scaled_per_dpi() {
    assert!(validate_geometry(32, 58, 1).is_ok());
    assert_eq!(
        validate_geometry(0, 58, 1),
        Err("snap titlebar height must be between 1 and 1024".to_string())
    );
    assert_eq!(
        validate_geometry(32, 1025, 1),
        Err("snap button width must be between 1 and 1024".to_string())
    );
    assert_eq!(
        validate_geometry(32, 58, 17),
        Err("snap right-side button index must not exceed 16".to_string())
    );
    assert_eq!(scaled(58, 96), 58);
    assert_eq!(scaled(58, 144), 87);
    assert_eq!(scaled(1, 47), 1);
    assert_eq!(scaled(0, 96), 1);
    assert_eq!(scaled(u32::MAX, u64::MAX), i32::MAX);
    assert_eq!(overlay_x(800, 58, 1), 684);
    assert_eq!(overlay_x(i32::MIN, i32::MAX, 16), i32::MIN);
}

#[test]
fn pointer_coordinates_are_the_signed_words_of_the_lparam() {
    assert_eq!(pointer_from_lparam(200 * 65536 + 100), (100, 200));
    assert_eq!(pointer_from_lparam(12 * 65536 + 0xfffc), (-4, 12));
    assert_eq!(pointer_from_lparam(-65531), (5, -1));
    for lparam in [0isize, 1, -1, 0x7fff_ffff, -0x8000_0000, 0x1234_5678, isize::MAX, isize::MIN] {
        assert_eq!(
            pointer_from_lparam(lparam),
            ((lparam as i16) as i32, ((lparam >> 16) as i16) as i32),
            "{lparam}"
        );
    }
}

#[test]
fn the_overlay_covers_the_maximize_button_counted_from_the_right() {
    assert_eq!(snap_overlay_index(&["minimize", "maximize", "close"]), Some(1));
    assert_eq!(snap_overlay_index(&["minimize", "maximize"]), Some(0));
    assert_eq!(snap_overlay_index(&["minimize", "close"]), None);
}

#[test]
fn overlay_teardown_reports_each_failed_step() {
    assert_eq!(overlay_teardown_result(true, None), Ok(()));
    assert_eq!(
        overlay_teardown_result(false, None),
        Err("RemoveWindowSubclass failed for the snap overlay".to_string())
    );
    assert_eq!(
        overlay_teardown_result(true, Some("access denied".to_string())),
        Err("DestroyWindow failed for the snap overlay: access denied".to_string())
    );
    assert_eq!(
        overlay_teardown_result(false, Some("access denied".to_string())),
        Err("RemoveWindowSubclass failed; DestroyWindow also failed: access denied".to_string())
    );
}
