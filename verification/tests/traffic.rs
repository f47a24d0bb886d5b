use tauri_plugin_decoration::traffic::dispatch_failure_report;
use tauri_plugin_decoration::traffic::{native_window_level, should_refresh_traffic_lights, WindowEventKind};
use tauri_plugin_decoration::lifecycle::FrontendTarget;
use tauri_plugin_decoration::traffic::{
    is_valid_inset, Activation, Insets, Observation, TitlebarState, TrafficRegistry,
    TrafficSnapshot,
};

const CLEARANCE_GAP: f64 = 8.0;

#[derive(Clone, Copy, Debug, Default, PartialEq)]
struct NativeRect {
    x: f64,
    y: f64,
    width: f64,
    height: f64,
}

#[derive(Clone, Copy, Debug, Default, PartialEq)]
struct NativeGeometry {
    titlebar: NativeRect,
    titlebar_top_margin: f64,
    buttons: [Option<NativeRect>; 3],
}

fn target(window: u64, document: u64) -> FrontendTarget {
    FrontendTarget::from_values(window, document).unwrap()
}

fn titlebar(fullscreen: bool, clearance: f64) -> TitlebarState {
    TitlebarState {
        fullscreen,
        clearance: clearance.to_bits(),
    }
}

fn normal(measured_cluster_right_edge: f64) -> Observation {
    Observation::Normal {
        measured: measured_cluster_right_edge.to_bits(),
        clearance: (measured_cluster_right_edge + CLEARANCE_GAP).to_bits(),
    }
}

fn insets(x: f64, y: f64) -> Insets {
    Insets {
        x: x.to_bits(),
        y: y.to_bits(),
    }
}

#[test]
fn first_activation_installs_one_listener_and_reactivation_retargets_it() {
    let mut registry = TrafficRegistry::<NativeGeometry>::new();

    let first = registry.activate(0x100, target(1, 10));
    assert!(matches!(first, Activation::InstallListener(_)));
    assert!(registry.mark_listener_installed(0x100, first.generation()));
    assert_eq!(
        registry.activate(0x100, target(1, 11)),
        Activation::ReuseListener(first.generation())
    );
    assert_eq!(
        registry.snapshot(0x100).unwrap().target,
        Some(target(1, 11))
    );
}

#[test]
fn native_pointer_reuse_allocates_a_new_listener_identity() {
    let mut registry = TrafficRegistry::<NativeGeometry>::new();
    registry
        .set_inset(0x100, 24.0f64.to_bits(), 18.0f64.to_bits())
        .unwrap();
    let old = registry.activate(0x100, target(1, 10));
    assert!(registry.mark_listener_installed(0x100, old.generation()));
    assert!(registry.record_original_geometry(
        0x100,
        old.generation(),
        NativeGeometry::default()
    ));

    let replacement = registry.activate(0x100, target(2, 20));

    assert!(replacement.installs_listener());
    assert_ne!(replacement.generation(), old.generation());
    assert_eq!(
        registry.snapshot(0x100),
        Some(TrafficSnapshot {
            insets: insets(24.0, 18.0),
            target: Some(target(2, 20)),
        })
    );
    assert!(!registry.mark_listener_installed(0x100, old.generation()));
    assert!(registry.mark_listener_installed(0x100, replacement.generation()));
    assert_eq!(
        registry
            .begin_deactivation(0x100)
            .unwrap()
            .original_geometry,
        None
    );
}

#[test]
fn stale_listener_cannot_observe_or_destroy_replacement_state() {
    let mut registry = TrafficRegistry::<NativeGeometry>::new();
    let old = registry.activate(0x100, target(1, 10));
    let replacement = registry.activate(0x100, target(2, 20));

    assert_eq!(
        registry.snapshot_for_listener(0x100, old.generation()),
        None
    );
    assert_eq!(
        registry.record_observation(0x100, old.generation(), normal(100.0)),
        None
    );
    assert!(!registry.destroy(0x100, old.generation()));
    assert_eq!(
        registry.snapshot_for_listener(0x100, replacement.generation()),
        registry.snapshot(0x100)
    );
    assert!(registry.destroy(0x100, replacement.generation()));
}

#[test]
fn a_new_window_generation_rotates_state_for_the_same_nswindow_pointer() {
    let mut registry = TrafficRegistry::<NativeGeometry>::new();
    let old = registry.activate(0x100, target(1, 10));
    assert!(registry.mark_listener_installed(0x100, old.generation()));
    let replacement = registry.activate(0x100, target(2, 20));

    assert_ne!(replacement.generation(), old.generation());
    assert!(replacement.installs_listener());
    assert!(!registry.destroy(0x100, old.generation()));
    assert_eq!(
        registry.snapshot(0x100).unwrap().target,
        Some(target(2, 20))
    );
}

#[test]
fn deactivation_clears_only_the_document_target() {
    let mut registry = TrafficRegistry::<NativeGeometry>::new();
    registry
        .set_inset(0x100, 24.0f64.to_bits(), 18.0f64.to_bits())
        .unwrap();
    let activation = registry.activate(0x100, target(1, 10));
    registry.mark_listener_installed(0x100, activation.generation());

    assert_eq!(
        registry.begin_deactivation(0x100).unwrap().target,
        Some(target(1, 10))
    );
    assert_eq!(
        registry.snapshot_for_listener(0x100, activation.generation()),
        None
    );
    assert_eq!(
        registry.begin_deactivation(0x100).unwrap().target,
        Some(target(1, 10))
    );
    assert!(registry.commit_deactivation(0x100, activation.generation()));
    assert_eq!(
        registry.snapshot(0x100),
        Some(TrafficSnapshot {
            insets: insets(24.0, 18.0),
            target: None,
        })
    );
    assert_eq!(
        registry.activate(0x100, target(1, 11)),
        Activation::ReuseListener(activation.generation())
    );
}

#[test]
fn windows_are_isolated_and_destroy_removes_only_the_matching_window() {
    let mut registry = TrafficRegistry::<NativeGeometry>::new();
    registry
        .set_inset(0x100, 10.0f64.to_bits(), 11.0f64.to_bits())
        .unwrap();
    registry
        .set_inset(0x200, 20.0f64.to_bits(), 21.0f64.to_bits())
        .unwrap();
    let first = registry.activate(0x100, target(1, 10));
    registry.activate(0x200, target(2, 20));

    assert!(registry.destroy(0x100, first.generation()));
    assert_eq!(registry.snapshot(0x100), None);
    assert_eq!(
        registry.snapshot(0x200).unwrap().target,
        Some(target(2, 20))
    );
    assert!(!registry.destroy(0x100, first.generation()));
}

#[test]
fn inset_before_activation_is_preserved_and_inputs_are_finite_nonnegative() {
    let mut registry = TrafficRegistry::<NativeGeometry>::new();
    assert_eq!(
        registry
            .set_inset(0x100, 16.0f64.to_bits(), 20.0f64.to_bits())
            .unwrap(),
        None
    );
    let initial = registry.activate(0x100, target(1, 10));
    assert!(initial.installs_listener());
    registry.mark_listener_installed(0x100, initial.generation());

    let snapshot = registry.snapshot(0x100).unwrap();
    assert_eq!(snapshot.insets, insets(16.0, 20.0));
    for invalid in [f64::NAN, f64::INFINITY, f64::NEG_INFINITY, -0.01] {
        assert!(registry
            .set_inset(0x100, invalid.to_bits(), 1.0f64.to_bits())
            .is_err());
        assert!(registry
            .set_inset(0x100, 1.0f64.to_bits(), invalid.to_bits())
            .is_err());
    }
}

#[test]
fn inset_validation_matches_float_comparison() {
    for value in [
        0.0,
        -0.0,
        1.0,
        f64::MIN_POSITIVE,
        f64::MAX,
        -1.0,
        f64::NAN,
        -f64::NAN,
        f64::INFINITY,
        f64::NEG_INFINITY,
        5e-324,
    ] {
        assert_eq!(
            is_valid_inset(value.to_bits()),
            value.is_finite() && value >= 0.0,
            "{value}"
        );
    }
}

#[test]
fn native_observations_encode_fullscreen_and_clearance_atomically() {
    let mut registry = TrafficRegistry::<NativeGeometry>::new();
    let activation = registry.activate(0x100, target(1, 10));

    assert_eq!(
        registry.record_observation(0x100, activation.generation(), Observation::Fullscreen),
        Some((target(1, 10), titlebar(true, 0.0))),
    );
    assert_eq!(
        registry.record_observation(0x100, activation.generation(), normal(64.0)),
        Some((target(1, 10), titlebar(false, 72.0))),
    );
}

#[test]
fn fullscreen_collapses_clearance_and_normal_refresh_restores_the_cache() {
    let mut registry = TrafficRegistry::<NativeGeometry>::new();
    let activation = registry.activate(0x100, target(1, 10));

    assert_eq!(
        registry.record_observation(0x100, activation.generation(), normal(64.0)),
        Some((target(1, 10), titlebar(false, 72.0)))
    );
    assert_eq!(
        registry.record_observation(0x100, activation.generation(), Observation::Fullscreen),
        Some((target(1, 10), titlebar(true, 0.0)))
    );
    assert_eq!(
        registry.record_observation(0x100, activation.generation(), normal(0.0)),
        Some((target(1, 10), titlebar(false, 72.0)))
    );
}

#[test]
fn duplicate_native_events_do_not_redispatch_identical_clearance() {
    let mut registry = TrafficRegistry::<NativeGeometry>::new();
    let activation = registry.activate(0x100, target(1, 10));
    let observation = normal(64.0);

    assert_eq!(
        registry.record_observation(0x100, activation.generation(), observation),
        Some((target(1, 10), titlebar(false, 72.0)))
    );
    assert_eq!(
        registry.record_observation(0x100, activation.generation(), observation),
        None
    );

    let next_document = registry.activate(0x100, target(1, 11));
    assert_eq!(next_document.generation(), activation.generation());
    assert_eq!(
        registry.record_observation(0x100, activation.generation(), observation),
        Some((target(1, 11), titlebar(false, 72.0)))
    );
}

#[test]
fn failed_frontend_dispatch_can_release_the_deduplication_claim() {
    let mut registry = TrafficRegistry::<NativeGeometry>::new();
    let activation = registry.activate(0x100, target(1, 10));
    let observation = normal(64.0);
    let dispatch = registry
        .record_observation(0x100, activation.generation(), observation)
        .unwrap();

    assert!(registry.rollback_dispatch(0x100, activation.generation(), dispatch.0, dispatch.1));
    assert_eq!(
        registry.record_observation(0x100, activation.generation(), observation),
        Some(dispatch)
    );
}

#[test]
fn deactivation_retains_original_geometry_until_restoration_commits() {
    let mut registry = TrafficRegistry::<NativeGeometry>::new();
    let activation = registry.activate(0x100, target(1, 10));
    let original = NativeGeometry {
        titlebar: NativeRect {
            x: 1.0,
            y: 2.0,
            width: 300.0,
            height: 28.0,
        },
        titlebar_top_margin: 0.0,
        buttons: [
            Some(NativeRect {
                x: 7.0,
                y: 8.0,
                width: 14.0,
                height: 14.0,
            }),
            None,
            None,
        ],
    };

    assert!(registry.record_original_geometry(0x100, activation.generation(), original));
    assert!(!registry.record_original_geometry(0x100, activation.generation(), original));

    let deactivation = registry.begin_deactivation(0x100).unwrap();
    assert_eq!(deactivation.target, Some(target(1, 10)));
    assert_eq!(deactivation.original_geometry, Some(original));
    assert!(registry.commit_deactivation(0x100, activation.generation()));
    assert_eq!(
        registry
            .begin_deactivation(0x100)
            .unwrap()
            .original_geometry,
        None
    );
}

#[test]
fn observations_while_deactivated_are_inert() {
    let mut registry = TrafficRegistry::<NativeGeometry>::new();
    assert_eq!(
        registry
            .set_inset(0x100, 12.0f64.to_bits(), 16.0f64.to_bits())
            .unwrap(),
        None
    );
    let activation = registry.activate(0x100, target(1, 10));
    registry.begin_deactivation(0x100).unwrap();

    assert_eq!(
        registry.record_observation(0x100, activation.generation(), normal(64.0)),
        None
    );
    registry.activate(0x100, target(1, 11));
    assert_eq!(
        registry.record_observation(0x100, activation.generation(), normal(f64::NAN)),
        Some((target(1, 11), titlebar(false, 0.0)))
    );
}

#[test]
fn default_insets_are_twelve_and_sixteen_points() {
    let mut registry = TrafficRegistry::<NativeGeometry>::new();
    registry.activate(0x100, target(1, 10));
    assert_eq!(registry.snapshot(0x100).unwrap().insets, insets(12.0, 16.0));
}

#[test]
fn window_movement_alone_does_not_rewrite_titlebar_geometry() {
    assert!(should_refresh_traffic_lights(WindowEventKind::Resized));
    assert!(should_refresh_traffic_lights(WindowEventKind::Focused(true)));
    assert!(should_refresh_traffic_lights(WindowEventKind::ScaleFactorChanged));
    assert!(!should_refresh_traffic_lights(WindowEventKind::Moved));
    assert!(!should_refresh_traffic_lights(WindowEventKind::Focused(false)));
    assert!(!should_refresh_traffic_lights(WindowEventKind::Other));
}

#[test]
fn window_levels_must_fit_an_nsinteger() {
    assert_eq!(native_window_level(3), Ok(3));
    assert_eq!(native_window_level(u32::MAX), Ok(u32::MAX as isize));
}

#[test]
fn failed_titlebar_dispatch_reports_its_rollbacks() {
    assert_eq!(dispatch_failure_report("eval failed", Ok(()), Ok(true)), None);
    assert_eq!(
        dispatch_failure_report("eval failed", Ok(()), Ok(false)),
        Some(
            "dispatching macOS traffic-light clearance failed: eval failed; traffic-light dispatch state changed before rollback"
                .to_string()
        )
    );
    assert_eq!(
        dispatch_failure_report(
            "eval failed",
            Err("frame".to_string()),
            Err("lock".to_string())
        ),
        Some(
            "dispatching macOS traffic-light clearance failed: eval failed; native geometry rollback failed: frame; traffic-light dispatch rollback failed: lock"
                .to_string()
        )
    );
    assert_eq!(
        dispatch_failure_report("eval failed", Err("frame".to_string()), Ok(true)),
        Some(
            "dispatching macOS traffic-light clearance failed: eval failed; native geometry rollback failed: frame"
                .to_string()
        )
    );
}
