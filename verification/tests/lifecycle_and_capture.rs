use recorder::capture::{
    capture_size, frame_time_ns, is_stop_key, recording_step, should_show_frame, CaptureStep,
};
use recorder::lifecycle::{
    accessibility_notice, accessibility_status, already_running_notice, on_run_event,
    query_accessibility_permissions, RunAction, RunEvent,
};

#[test]
fn permissions_are_granted_off_macos() {
    assert!(query_accessibility_permissions());
    assert!(accessibility_notice(query_accessibility_permissions()).is_none());
}

#[test]
fn missing_permissions_are_asked_for() {
    let n = accessibility_notice(false).unwrap();
    assert_eq!(n.title, "Accessibility permissions");
    assert_eq!(n.body, "Please grant accessibility permissions to the app");
    assert_eq!(n.icon, Some("icon.png".to_string()));
    assert_eq!(accessibility_status(true), "Application is totally trusted!");
    assert_eq!(accessibility_status(false), "Application isn't trusted :(");
}

#[test]
fn second_instance_notice() {
    let n = already_running_notice();
    assert_eq!(n.title, "This app is already running!");
    assert_eq!(n.body, "You can find it in the tray menu.");
    assert_eq!(n.icon, None);
}

#[test]
fn run_loop_actions() {
    assert_eq!(on_run_event(RunEvent::Ready), RunAction::CloseMainWindow);
    assert_eq!(on_run_event(RunEvent::ExitRequested), RunAction::PreventExit);
    assert_eq!(on_run_event(RunEvent::Exit), RunAction::Nothing);
    assert_eq!(on_run_event(RunEvent::WindowCloseRequested), RunAction::Nothing);
    assert_eq!(on_run_event(RunEvent::Other), RunAction::Nothing);
}

#[test]
fn recording_lasts_ten_seconds() {
    assert_eq!(recording_step(0, 0), CaptureStep::Encode(0));
    assert_eq!(recording_step(1, 234_567_890), CaptureStep::Encode(1234));
    assert_eq!(recording_step(9, 999_999_999), CaptureStep::Encode(9999));
    assert_eq!(recording_step(10, 0), CaptureStep::Encode(10_000));
    assert_eq!(recording_step(10, 1), CaptureStep::Stop);
    assert_eq!(recording_step(11, 0), CaptureStep::Stop);
    assert_eq!(recording_step(u64::MAX, 999_999_999), CaptureStep::Stop);
}

#[test]
fn frame_times_in_nanoseconds() {
    assert_eq!(frame_time_ns(0), 0);
    assert_eq!(frame_time_ns(1234), 1_234_000_000);
    assert_eq!(frame_time_ns((u64::MAX / 1_000_000) as i64), (u64::MAX / 1_000_000) * 1_000_000);
}

#[test]
fn capture_size_scales() {
    assert_eq!(capture_size(1440, 900, 2), (2880, 1800));
    assert_eq!(capture_size(1920, 1080, 1), (1920, 1080));
}

#[test]
fn camera_preview_decisions() {
    assert!(should_show_frame(640));
    assert!(!should_show_frame(0));
    assert!(!should_show_frame(-1));
    assert!(is_stop_key(27));
    assert!(!is_stop_key(113));
    assert!(!is_stop_key(-1));
}
