use apple_ai_bridge::availability::{collect_languages, interpret_availability, STATUS_AVAILABLE};
use apple_ai_bridge::lifecycle::LifecycleGuard;
use apple_ai_bridge::registry::HandleSlot;

#[test]
fn available_status_yields_fixed_reason() {
    let a = interpret_availability(STATUS_AVAILABLE, String::from("ignored"));
    assert!(a.available);
    assert_eq!(a.reason, "Available");
}

#[test]
fn unavailable_status_keeps_engine_reason() {
    let a = interpret_availability(0, String::from("model not downloaded"));
    assert!(!a.available);
    assert_eq!(a.reason, "model not downloaded");
}

#[test]
fn negative_status_is_unavailable() {
    let a = interpret_availability(-1, String::from("restricted"));
    assert!(!a.available);
    assert_eq!(a.reason, "restricted");
}

#[test]
fn languages_keep_index_order_and_skip_missing_answers() {
    let raw = vec![
        Some(String::from("en")),
        None,
        Some(String::from("fr")),
        Some(String::from("de")),
        None,
    ];
    assert_eq!(
        collect_languages(raw),
        vec![String::from("en"), String::from("fr"), String::from("de")]
    );
}

#[test]
fn no_languages_yields_empty_list() {
    assert_eq!(collect_languages(Vec::new()), Vec::<String>::new());
}

#[test]
fn setup_runs_once_and_success_is_recorded() {
    let mut guard = LifecycleGuard::new();
    assert!(guard.needs_setup());
    assert!(!guard.is_ready());
    guard.record_setup(true);
    assert!(!guard.needs_setup());
    assert!(guard.is_ready());
    assert!(!guard.has_failed());
}

#[test]
fn setup_failure_is_terminal() {
    let mut guard = LifecycleGuard::new();
    guard.record_setup(false);
    assert!(!guard.needs_setup());
    assert!(!guard.is_ready());
    assert!(guard.has_failed());
}

#[test]
fn installing_a_handle_retires_the_previous_one() {
    let mut slot = HandleSlot::new();
    assert_eq!(slot.current(), None);

    assert_eq!(slot.install(1), None);
    assert_eq!(slot.current(), Some(1));

    let prev = slot.install(2);
    assert_eq!(prev, Some(1));
    assert_eq!(slot.current(), Some(2));
}

#[test]
fn clearing_retires_the_live_handle() {
    let mut slot = HandleSlot::new();
    slot.install(5);
    assert_eq!(slot.clear(), Some(5));
    assert_eq!(slot.current(), None);
    assert_eq!(slot.clear(), None);
}
