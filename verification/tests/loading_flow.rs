use kiwi_admin::components::loading::ONLY_SHOW_AFTER_MILLIS;
use kiwi_admin::components::loading::SHOW_FOR_AT_LEAST_MILLIS;
use kiwi_admin::components::loading::SpinnerMsg;
use kiwi_admin::components::loading::SpinnerState;
use kiwi_admin::components::loading::SpinnerTimer;
use kiwi_admin::components::loading::SpinnerView;
use kiwi_admin::components::search::SEARCH_DEBOUNCE_MILLIS;
use kiwi_admin::components::search::SearchState;

#[test]
fn delayed_activation_schedules_the_spinner() {
    let mut s = SpinnerState::init(false);
    s.on_props_change(false, true, true, 1000);
    assert!(!s.fully_visible);
    assert_eq!(
        s.pending,
        Some(SpinnerTimer { delay_ms: ONLY_SHOW_AFTER_MILLIS, msg: SpinnerMsg::EnableFullyVisible })
    );
    assert_eq!(s.view(true), SpinnerView::Overlay);
    s.on_timer(SpinnerMsg::EnableFullyVisible, 1400);
    assert!(s.fully_visible);
    assert_eq!(s.became_fully_visible, Some(1400));
    assert!(s.pending.is_none());
    assert_eq!(s.view(true), SpinnerView::Spinner);
}

#[test]
fn undelayed_activation_shows_at_once() {
    let mut s = SpinnerState::init(false);
    s.on_props_change(false, true, false, 2000);
    assert!(s.fully_visible);
    assert_eq!(s.became_fully_visible, Some(2000));
    assert!(s.pending.is_none());
}

#[test]
fn early_deactivation_keeps_the_spinner_up_for_the_minimum() {
    let mut s = SpinnerState::init(false);
    s.on_props_change(false, true, false, 2000);
    s.on_props_change(true, false, false, 2200);
    assert!(s.fully_visible);
    assert_eq!(
        s.pending,
        Some(
            SpinnerTimer {
                delay_ms: SHOW_FOR_AT_LEAST_MILLIS - 200,
                msg: SpinnerMsg::DisableFullyVisible,
            }
        )
    );
    s.on_timer(SpinnerMsg::DisableFullyVisible, 2500);
    assert!(!s.fully_visible);
    assert!(s.pending.is_none());
    assert_eq!(s.view(false), SpinnerView::Hidden);
}

#[test]
fn late_deactivation_hides_at_once() {
    let mut s = SpinnerState::init(false);
    s.on_props_change(false, true, false, 2000);
    s.on_props_change(true, false, false, 2600);
    assert!(!s.fully_visible);
    assert!(s.pending.is_none());
    assert!(s.became_fully_visible.is_none());
}

#[test]
fn deactivation_before_full_visibility_just_cancels() {
    let mut s = SpinnerState::init(false);
    s.on_props_change(false, true, true, 2000);
    s.on_props_change(true, false, true, 2100);
    assert!(s.pending.is_none());
    assert!(!s.fully_visible);
}

#[test]
fn search_reports_after_the_debounce() {
    let mut s = SearchState::init();
    assert_eq!(s.on_change("do".to_string()), SEARCH_DEBOUNCE_MILLIS);
    assert_eq!(s.on_change("door".to_string()), SEARCH_DEBOUNCE_MILLIS);
    assert_eq!(s.on_timer(), Some("door".to_string()));
    s.on_change("".to_string());
    assert_eq!(s.on_timer(), None);
}
