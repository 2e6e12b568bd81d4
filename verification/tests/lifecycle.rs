use capptivo::area_picker::{
    complete_area_pick, pick_capture_area, show_area_frame_guide, AppError, AreaPickState,
    CaptureAreaSelection,
};
use capptivo::lifecycle::{
    console_log_filter, media_root, on_run_event, on_window_event, MediaRoot, RunAction, RunEvent,
    WindowEvent, MEDIA_FALLBACK_DIR,
};
use capptivo::text::{same_text, strip_prefix};

#[test]
fn a_launch_shows_the_recorder_and_then_checks_for_updates() {
    assert_eq!(
        on_run_event(RunEvent::Ready),
        vec![RunAction::ShowRecorder, RunAction::CheckForUpdates]
    );
}

#[test]
fn a_reopen_shows_the_recorder_only() {
    assert_eq!(on_run_event(RunEvent::Reopen), vec![RunAction::ShowRecorder]);
}

#[test]
fn other_events_do_nothing() {
    assert_eq!(on_run_event(RunEvent::Other), vec![]);
}

#[test]
fn only_a_destroyed_window_refreshes_the_policy() {
    assert!(on_window_event(WindowEvent::Destroyed));
    assert!(!on_window_event(WindowEvent::Other));
}

#[test]
fn media_falls_back_to_the_temporary_directory() {
    assert_eq!(media_root(true), MediaRoot::AppData);
    assert_eq!(media_root(false), MediaRoot::Temporary);
    assert_eq!(MEDIA_FALLBACK_DIR, "Capptivo");
}

#[test]
fn the_environment_overrides_the_log_filter() {
    assert_eq!(console_log_filter(None), "info,desktop_lib=debug");
    assert_eq!(console_log_filter(Some("warn".to_string())), "warn");
    assert_eq!(console_log_filter(Some(String::new())), "");
}

#[test]
fn area_capture_is_refused() {
    let state = AreaPickState::new();
    assert_eq!(pick_capture_area(&state), Err(AppError::Unsupported));
    assert_eq!(complete_area_pick(&state), Err(AppError::Unsupported));
    assert_eq!(
        show_area_frame_guide(&CaptureAreaSelection),
        Err(AppError::Unsupported)
    );
}

#[test]
fn prefixes_and_equal_strings() {
    assert_eq!(strip_prefix("--action=stop", "--action="), Some("stop"));
    assert_eq!(strip_prefix("--action=", "--action="), Some(""));
    assert_eq!(strip_prefix("--action", "--action="), None);
    assert_eq!(strip_prefix("éa", "é"), Some("a"));
    assert_eq!(strip_prefix("abc", ""), Some("abc"));
    assert!(same_text("", ""));
    assert!(same_text("né", "né"));
    assert!(!same_text("né", "ne"));
    assert!(!same_text("a", "ab"));
    assert!(!same_text("ab", "a"));
}
