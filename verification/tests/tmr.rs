use unwrap_rs::error_boundary::{ErrorBoundary, ErrorBoundaryMsg};
use unwrap_rs::status_indicator::{StatusIndicator, StatusIndicatorMsg};

fn boundary(state: [Option<&str>; 3], flags: [bool; 3]) -> ErrorBoundary {
    ErrorBoundary {
        error_state: state.map(|s| s.map(|m| m.to_string())),
        has_error: flags,
    }
}

#[test]
fn fresh_boundary_shows_children() {
    let b = ErrorBoundary::create_component();
    assert!(!b.error_detected());
    assert!(b.verify_state_integrity());
    assert_eq!(b.error_message(), "Unknown error");
}

#[test]
fn catch_error_stores_three_copies() {
    let mut b = ErrorBoundary::create_component();
    assert!(b.update(ErrorBoundaryMsg::CatchError("boom".to_string())));
    assert_eq!(b.has_error, [true, true, true]);
    for s in b.error_state.iter() {
        assert_eq!(s.as_deref(), Some("boom"));
    }
    assert!(b.error_detected());
    assert!(b.verify_state_integrity());
    assert_eq!(b.error_message(), "boom");
}

#[test]
fn clear_error_resets_all_copies() {
    let mut b = boundary([Some("x"), None, Some("y")], [true, false, true]);
    assert!(b.update(ErrorBoundaryMsg::ClearError));
    assert_eq!(b.has_error, [false, false, false]);
    assert!(b.error_state.iter().all(|s| s.is_none()));
    assert!(!b.error_detected());
}

#[test]
fn verify_repairs_two_of_three() {
    let mut b = boundary([None, Some("disk"), Some("other")], [true, false, true]);
    assert!(b.error_detected());
    assert!(!b.verify_state_integrity());
    assert!(b.update(ErrorBoundaryMsg::VerifyErrorState));
    assert_eq!(b.has_error, [true, true, true]);
    for s in b.error_state.iter() {
        assert_eq!(s.as_deref(), Some("disk"));
    }
    assert!(b.verify_state_integrity());
    assert_eq!(b.error_message(), "disk");
    assert!(!b.update(ErrorBoundaryMsg::VerifyErrorState));
}

#[test]
fn verify_repairs_flags_without_messages() {
    let mut b = boundary([None, None, None], [false, true, true]);
    assert!(b.update(ErrorBoundaryMsg::VerifyErrorState));
    assert_eq!(b.has_error, [true, true, true]);
    assert!(b.error_state.iter().all(|s| s.is_none()));
    assert_eq!(b.error_message(), "Unknown error");
}

#[test]
fn verify_clears_a_single_flag() {
    let mut b = boundary([Some("stray"), None, None], [false, false, true]);
    assert!(!b.error_detected());
    assert!(!b.verify_state_integrity());
    assert!(b.update(ErrorBoundaryMsg::VerifyErrorState));
    assert_eq!(b.has_error, [false, false, false]);
    assert_eq!(b.error_state[0].as_deref(), Some("stray"));
    assert!(b.error_state[1].is_none() && b.error_state[2].is_none());
    assert!(b.verify_state_integrity());
    assert!(!b.error_detected());
    assert!(!b.update(ErrorBoundaryMsg::VerifyErrorState));
}

#[test]
fn verify_leaves_consistent_state_alone() {
    let mut b = boundary([Some("a"), Some("b"), None], [true, true, true]);
    assert!(!b.update(ErrorBoundaryMsg::VerifyErrorState));
    assert_eq!(b.error_state[1].as_deref(), Some("b"));
    assert_eq!(b.error_message(), "a");
}

#[test]
fn single_flag_fault_is_masked() {
    for i in 0..3 {
        let mut flags = [true, true, true];
        flags[i] = false;
        let b = boundary([Some("e"), Some("e"), Some("e")], flags);
        assert!(b.error_detected());
        let mut flags = [false, false, false];
        flags[i] = true;
        let mut b = boundary([None, None, None], flags);
        assert!(!b.error_detected());
        assert!(b.update(ErrorBoundaryMsg::VerifyErrorState));
        assert_eq!(b.has_error, [false, false, false]);
    }
}

fn indicator(health: [bool; 3], checks: [u64; 3], blink: bool) -> StatusIndicator {
    StatusIndicator { health_status: health, last_check: checks, blink_state: blink }
}

#[test]
fn all_checked_recently_is_nominal() {
    let s = indicator([true, true, true], [1000, 1000, 1000], false);
    let v = s.view(6000);
    assert_eq!(v.healthy_count, 3);
    assert_eq!(v.status_text, "All Systems Nominal");
    assert_eq!(v.status_class, "");
    assert_eq!(v.dot_style, "");
    assert_eq!(v.unit_classes, ["tmr-unit", "tmr-unit", "tmr-unit"]);
}

#[test]
fn stale_check_counts_as_failure() {
    let s = indicator([true, true, true], [1000, 999, 1000], false);
    let v = s.view(6000);
    assert_eq!(v.healthy_count, 2);
    assert_eq!(v.status_text, "Degraded Redundancy");
    assert_eq!(v.status_class, "degraded");
    assert_eq!(v.unit_classes, ["tmr-unit", "tmr-unit degraded", "tmr-unit"]);
}

#[test]
fn one_healthy_is_critical_and_blinks() {
    let s = indicator([true, false, false], [0, 0, 0], true);
    let v = s.view(10);
    assert_eq!(v.healthy_count, 1);
    assert_eq!(v.status_text, "Critical Redundancy Loss");
    assert_eq!(v.status_class, "error");
    assert_eq!(v.dot_style, "opacity: 0.5");
    assert_eq!(v.unit_classes, ["tmr-unit", "tmr-unit error", "tmr-unit error"]);
}

#[test]
fn none_healthy_is_failure() {
    let s = indicator([false, false, false], [0, 0, 0], false);
    let v = s.view(0);
    assert_eq!(v.healthy_count, 0);
    assert_eq!(v.status_text, "System Failure");
    assert_eq!(v.status_class, "error");
    assert_eq!(v.dot_style, "");
}

#[test]
fn status_check_refreshes_healthy_units_only() {
    let mut s = indicator([true, false, true], [5, 5, 5], false);
    assert!(s.update(StatusIndicatorMsg::UpdateStatusChecks, 20_000));
    assert_eq!(s.last_check, [20_000, 5, 20_000]);
    let v = s.view(25_000);
    assert_eq!(v.healthy_count, 2);
    let v = s.view(25_001);
    assert_eq!(v.healthy_count, 0);
}

#[test]
fn blink_toggles_and_returns() {
    let mut s = StatusIndicator::create([true, true, false]);
    assert!(!s.blink_state);
    assert!(s.update(StatusIndicatorMsg::ToggleBlink, 0));
    assert!(s.blink_state);
    assert!(s.update(StatusIndicatorMsg::ToggleBlink, 0));
    assert!(!s.blink_state);
    assert_eq!(s.health_status, [true, true, false]);
    assert_eq!(s.last_check, [0, 0, 0]);
}

#[test]
fn changed_replaces_health() {
    let mut s = StatusIndicator::create_component();
    assert_eq!(s.health_status, [true, true, true]);
    assert!(s.changed([false, true, false]));
    assert_eq!(s.health_status, [false, true, false]);
    assert!(s.verify_state_integrity());
}

#[test]
fn check_from_the_future_is_stale() {
    let s = indicator([true, true, true], [10_000, 1_000, 1_000], false);
    let v = s.view(2_000);
    assert_eq!(v.healthy_count, 2);
    assert_eq!(v.unit_classes, ["tmr-unit degraded", "tmr-unit", "tmr-unit"]);
}
