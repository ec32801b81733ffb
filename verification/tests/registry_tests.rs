use lilt_control::registry::{finish_stop, wire_name, LifecycleEvent, Registry};

#[test]
fn fresh_registry_is_not_running() {
    let reg = Registry::new();
    assert!(!reg.is_running());
}

#[test]
fn query_is_idempotent() {
    let reg = Registry::new();
    let first = reg.is_running();
    let second = reg.is_running();
    assert_eq!(first, second);

    let mut reg = Registry::new();
    assert_eq!(reg.begin_start(), None);
    let (result, _) = reg.finish_start(Ok(7));
    assert!(result.is_ok());
    assert_eq!(reg.is_running(), reg.is_running());
}

#[test]
fn successful_start_stores_handle_and_emits_started() {
    let mut reg = Registry::new();
    let victim = reg.begin_start();
    assert_eq!(victim, None);
    let (result, event) = reg.finish_start(Ok(1));
    assert!(result.is_ok());
    assert_eq!(event, Some(LifecycleEvent::Started));
    assert!(reg.is_running());
}

#[test]
fn second_start_surrenders_first_handle() {
    let mut reg = Registry::new();
    assert_eq!(reg.begin_start(), None);
    let (result, _) = reg.finish_start(Ok(1));
    assert!(result.is_ok());

    let victim = reg.begin_start();
    assert_eq!(victim, Some(1));
    assert!(!reg.is_running());
    let (result, event) = reg.finish_start(Ok(2));
    assert!(result.is_ok());
    assert_eq!(event, Some(LifecycleEvent::Started));
    assert!(reg.is_running());
}

#[test]
fn failed_spawn_leaves_slot_empty_and_silent() {
    let mut reg = Registry::new();
    assert_eq!(reg.begin_start(), None);
    let (result, event) = reg.finish_start(Err("boom".to_string()));
    assert_eq!(result, Err("Failed to start lilt: boom".to_string()));
    assert_eq!(event, None);
    assert!(!reg.is_running());
}

#[test]
fn stop_without_start_fails() {
    let mut reg = Registry::new();
    let taken = reg.request_stop();
    assert_eq!(taken, Err("No process running".to_string()));
    assert!(!reg.is_running());
}

#[test]
fn stop_after_start_yields_handle_and_emits_stopped() {
    let mut reg = Registry::new();
    assert_eq!(reg.begin_start(), None);
    let (result, _) = reg.finish_start(Ok(5));
    assert!(result.is_ok());

    let taken = reg.request_stop();
    assert_eq!(taken, Ok(5));
    assert!(!reg.is_running());

    let (result, event) = finish_stop(None);
    assert_eq!(result, Ok(()));
    assert_eq!(event, Some(LifecycleEvent::Stopped));
}

#[test]
fn detected_exit_empties_slot_and_emits_stopped() {
    let mut reg = Registry::new();
    assert_eq!(reg.begin_start(), None);
    let (result, _) = reg.finish_start(Ok(9));
    assert!(result.is_ok());

    assert_eq!(reg.note_exit(false), None);
    assert!(reg.is_running());
    assert_eq!(reg.note_exit(true), Some(LifecycleEvent::Stopped));
    assert!(!reg.is_running());
    assert_eq!(reg.note_exit(true), None);
}

#[test]
fn events_carry_their_wire_names() {
    assert_eq!(wire_name(LifecycleEvent::Started), "transcoding-started".to_string());
    assert_eq!(wire_name(LifecycleEvent::Stopped), "transcoding-stopped".to_string());
}

#[test]
fn failed_kill_reports_error_and_emits_nothing() {
    let (result, event) = finish_stop(Some("EPERM".to_string()));
    assert_eq!(result, Err("Failed to kill process: EPERM".to_string()));
    assert_eq!(event, None);
}
