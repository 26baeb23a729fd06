use screen_capture::error::CaptureError;
use screen_capture::geometry::{DeviceRegion, DisplayInfo, ScaleFactor};
use screen_capture::pixels::PixelLayout;
use screen_capture::wayland::{wayland_capture_screen, wayland_capture_screen_area};
use screen_capture::wayland_screenshot::{
    wayland_screenshot, Action, Event, OrgFreedesktopPortalRequestResponse, PortalRequestState, Stage,
    WaylandScreenshot, CALL_TIMEOUT_MS, HANDLE_TOKEN, MAX_POLLS, POLL_TIMEOUT_MS, STATUS_SUCCESS,
};

fn png_file(width: u32, height: u32, data: &[u8]) -> Vec<u8> {
    let mut file = Vec::new();
    {
        let mut encoder = png::Encoder::new(&mut file, width, height);
        encoder.set_color(png::ColorType::Rgba);
        encoder.set_depth(png::BitDepth::Eight);
        let mut writer = encoder.write_header().unwrap();
        writer.write_image_data(data).unwrap();
    }
    file
}

fn silence() -> Event {
    Event::BusProcessed { ok: true, state: PortalRequestState::new() }
}

fn response(status: u32, uri: Option<&str>) -> Event {
    let mut state = PortalRequestState::new();
    state.record(OrgFreedesktopPortalRequestResponse { status, uri: uri.map(String::from) });
    Event::BusProcessed { ok: true, state }
}

/// A capture whose shell service has just failed at the first step.
fn at_the_portal(x: i32, y: i32, width: i32, height: i32) -> WaylandScreenshot {
    let mut capture = wayland_screenshot(x, y, width, height);
    capture.handle(Event::BusOpened(true));
    capture.handle(Event::TempFileNamed(Some(String::from("/tmp/screenshot/1.png"))));
    capture.handle(Event::ShellReplied(false));
    capture.handle(Event::FileRemoved(false));
    capture
}

/// A capture that waits for the portal's response.
fn waiting(x: i32, y: i32, width: i32, height: i32) -> WaylandScreenshot {
    let mut capture = at_the_portal(x, y, width, height);
    capture.handle(Event::Subscribed(true));
    capture.handle(Event::PortalReplied(true));
    capture
}

#[test]
fn protocol_constants() {
    assert_eq!(MAX_POLLS, 60);
    assert_eq!(POLL_TIMEOUT_MS, 1000);
    assert_eq!(CALL_TIMEOUT_MS, 10000);
    assert_eq!(STATUS_SUCCESS, 0);
    assert_eq!(HANDLE_TOKEN, "1234");
}

#[test]
fn capture_starts_by_opening_the_bus() {
    let capture = wayland_screenshot(1, 2, 3, 4);
    assert!(matches!(capture.action(), Action::OpenSessionBus));
    assert_eq!(capture.stage(), Stage::Connecting);
    assert!(!capture.is_finished());
    assert_eq!(capture.discarded_error(), None);
    assert!(capture.into_result().is_none());
}

#[test]
fn no_bus_no_capture() {
    let mut capture = wayland_screenshot(1, 2, 3, 4);
    capture.handle(Event::BusOpened(false));
    assert!(capture.is_finished());
    assert!(matches!(capture.action(), Action::Finish));
    assert_eq!(capture.into_result(), Some(Err(CaptureError::BusConnectionFailed)));
}

#[test]
fn shell_service_succeeds() {
    let mut capture = wayland_screenshot(10, 20, 30, 40);
    capture.handle(Event::BusOpened(true));
    assert!(matches!(capture.action(), Action::NameTempFile));
    capture.handle(Event::TempFileNamed(Some(String::from("/tmp/screenshot/17.png"))));
    match capture.action() {
        Action::CallShell { x, y, width, height, flash, filename } => {
            assert_eq!((x, y, width, height), (10, 20, 30, 40));
            assert!(!flash);
            assert_eq!(filename, "/tmp/screenshot/17.png");
        }
        other => panic!("unexpected action {:?}", other),
    }
    capture.handle(Event::ShellReplied(true));
    assert!(matches!(capture.action(), Action::ReadFile(path) if path == "/tmp/screenshot/17.png"));
    capture.handle(Event::FileRead(Some(vec![1, 2, 3])));
    assert!(matches!(capture.action(), Action::RemoveFile(path) if path == "/tmp/screenshot/17.png"));
    assert!(!capture.is_finished());
    capture.handle(Event::FileRemoved(true));
    assert!(capture.is_finished());
    assert_eq!(capture.discarded_error(), None);
    assert_eq!(capture.into_result(), Some(Ok(vec![1, 2, 3])));
}

#[test]
fn shell_failure_at_each_step_falls_back_to_the_portal() {
    let name = || Event::TempFileNamed(Some(String::from("/tmp/screenshot/1.png")));
    // The events up to the failure, the cause, and whether the file is cleared away first.
    let runs: Vec<(Vec<Event>, CaptureError, bool)> = vec![
        (vec![Event::TempFileNamed(None)], CaptureError::IoError, false),
        (vec![name(), Event::ShellReplied(false)], CaptureError::RemoteServiceUnavailable, true),
        (vec![name(), Event::ShellReplied(true), Event::FileRead(None)], CaptureError::IoError, true),
        (
            vec![name(), Event::ShellReplied(true), Event::FileRead(Some(vec![1])), Event::FileRemoved(false)],
            CaptureError::IoError,
            false,
        ),
    ];
    for (events, cause, clears) in runs {
        let mut capture = wayland_screenshot(0, 0, 1, 1);
        capture.handle(Event::BusOpened(true));
        for event in events {
            assert!(capture.discarded_error().is_none());
            capture.handle(event);
        }
        assert_eq!(capture.discarded_error(), Some(cause));
        if clears {
            assert_eq!(capture.stage(), Stage::DiscardingShellFile);
            assert!(matches!(capture.action(), Action::RemoveFile(path) if path == "/tmp/screenshot/1.png"));
            capture.handle(Event::FileRemoved(false));
        }
        assert_eq!(capture.stage(), Stage::Subscribing);
        assert!(matches!(capture.action(), Action::Subscribe));
        assert_eq!(capture.discarded_error(), Some(cause));
        assert!(capture.into_result().is_none());
    }
}

#[test]
fn portal_is_asked_once() {
    let mut capture = at_the_portal(0, 0, 1, 1);
    let mut subscriptions = 1;
    capture.handle(Event::Subscribed(true));
    match capture.action() {
        Action::CallPortal { modal, interactive } => {
            assert!(modal);
            assert!(!interactive);
        }
        other => panic!("unexpected action {:?}", other),
    }
    capture.handle(Event::PortalReplied(false));
    for _ in 0..100 {
        if matches!(capture.action(), Action::Subscribe) {
            subscriptions += 1;
        }
        capture.handle(Event::ShellReplied(false));
    }
    assert_eq!(subscriptions, 1);
    assert_eq!(capture.discarded_error(), Some(CaptureError::RemoteServiceUnavailable));
    assert_eq!(capture.into_result(), Some(Err(CaptureError::RequestRejected)));
}

#[test]
fn subscription_refused() {
    let mut capture = at_the_portal(0, 0, 1, 1);
    capture.handle(Event::Subscribed(false));
    assert_eq!(capture.into_result(), Some(Err(CaptureError::BusConnectionFailed)));
}

#[test]
fn silent_portal_times_out_after_sixty_rounds() {
    let mut capture = waiting(0, 0, 1, 1);
    for _ in 0..59 {
        assert!(matches!(capture.action(), Action::ProcessBus { timeout_ms: 1000 }));
        capture.handle(silence());
        assert!(!capture.is_finished());
    }
    assert!(matches!(capture.action(), Action::ProcessBus { timeout_ms: 1000 }));
    capture.handle(silence());
    assert!(capture.is_finished());
    assert!(matches!(capture.action(), Action::Finish));
    assert_eq!(capture.into_result(), Some(Err(CaptureError::Timeout)));
}

#[test]
fn response_in_the_last_round_counts() {
    let mut capture = waiting(0, 0, 1, 1);
    for _ in 0..59 {
        capture.handle(silence());
    }
    capture.handle(response(0, Some("file:///tmp/late.png")));
    assert!(matches!(capture.action(), Action::ReadFile(path) if path == "/tmp/late.png"));
}

#[test]
fn bus_failure_while_waiting() {
    let mut capture = waiting(0, 0, 1, 1);
    capture.handle(silence());
    capture.handle(Event::BusProcessed { ok: false, state: PortalRequestState::new() });
    assert_eq!(capture.into_result(), Some(Err(CaptureError::BusConnectionFailed)));
}

#[test]
fn denied_request_removes_the_file_and_fails() {
    let mut capture = waiting(0, 0, 1, 1);
    capture.handle(silence());
    capture.handle(response(1, Some("file:///tmp/partial%20shot.png")));
    assert!(!capture.is_finished());
    assert!(matches!(capture.action(), Action::RemoveFile(path) if path == "/tmp/partial shot.png"));
    capture.handle(Event::FileRemoved(true));
    assert!(capture.is_finished());
    assert_eq!(capture.into_result(), Some(Err(CaptureError::UserCancelled)));
}

#[test]
fn denied_request_without_a_file() {
    let mut capture = waiting(0, 0, 1, 1);
    capture.handle(response(2, None));
    assert!(capture.is_finished());
    assert_eq!(capture.into_result(), Some(Err(CaptureError::UserCancelled)));
}

#[test]
fn failed_removal_does_not_mask_the_error() {
    let mut capture = waiting(0, 0, 1, 1);
    capture.handle(response(1, Some("file:///tmp/partial.png")));
    capture.handle(Event::FileRemoved(false));
    assert_eq!(capture.into_result(), Some(Err(CaptureError::UserCancelled)));
}

#[test]
fn success_without_a_file() {
    let mut capture = waiting(0, 0, 1, 1);
    capture.handle(response(0, None));
    assert_eq!(capture.into_result(), Some(Err(CaptureError::IoError)));
    let mut capture = waiting(0, 0, 1, 1);
    capture.handle(response(0, Some("file")));
    assert_eq!(capture.into_result(), Some(Err(CaptureError::IoError)));
    let mut capture = waiting(0, 0, 1, 1);
    capture.handle(response(0, Some("file:///%ff.png")));
    assert_eq!(capture.into_result(), Some(Err(CaptureError::IoError)));
}

#[test]
fn portal_succeeds() {
    let pixels: Vec<u8> = (1..=48).collect();
    let mut capture = waiting(1, 1, 2, 2);
    capture.handle(silence());
    capture.handle(response(0, Some("file:///tmp/My%20Shot.png")));
    assert!(matches!(capture.action(), Action::ReadFile(path) if path == "/tmp/My Shot.png"));
    capture.handle(Event::FileRead(Some(png_file(4, 3, &pixels))));
    assert!(matches!(capture.action(), Action::RemoveFile(path) if path == "/tmp/My Shot.png"));
    capture.handle(Event::FileRemoved(true));
    assert!(capture.is_finished());
    assert_eq!(
        capture.into_result(),
        Some(Ok(vec![21, 22, 23, 24, 25, 26, 27, 28, 37, 38, 39, 40, 41, 42, 43, 44]))
    );
}

#[test]
fn failed_removal_does_not_spoil_the_capture() {
    let pixels: Vec<u8> = (1..=16).collect();
    let mut capture = waiting(0, 0, 2, 2);
    capture.handle(response(0, Some("file:///tmp/shot.png")));
    capture.handle(Event::FileRead(Some(png_file(2, 2, &pixels))));
    capture.handle(Event::FileRemoved(false));
    assert_eq!(capture.into_result(), Some(Ok(pixels)));
}

#[test]
fn unreadable_file_is_still_removed() {
    let mut capture = waiting(0, 0, 2, 2);
    capture.handle(response(0, Some("file:///tmp/shot.png")));
    capture.handle(Event::FileRead(None));
    assert!(matches!(capture.action(), Action::RemoveFile(path) if path == "/tmp/shot.png"));
    capture.handle(Event::FileRemoved(true));
    assert_eq!(capture.into_result(), Some(Err(CaptureError::IoError)));
}

#[test]
fn malformed_file_is_still_removed() {
    let mut capture = waiting(0, 0, 2, 2);
    capture.handle(response(0, Some("file:///tmp/shot.png")));
    capture.handle(Event::FileRead(Some(vec![1, 2, 3])));
    assert!(matches!(capture.action(), Action::RemoveFile(path) if path == "/tmp/shot.png"));
    capture.handle(Event::FileRemoved(true));
    assert_eq!(capture.into_result(), Some(Err(CaptureError::DecodeError)));
}

#[test]
fn negative_size_is_an_empty_rectangle() {
    let pixels: Vec<u8> = (1..=16).collect();
    let mut capture = waiting(0, 0, -2, 2);
    capture.handle(response(0, Some("file:///tmp/shot.png")));
    capture.handle(Event::FileRead(Some(png_file(2, 2, &pixels))));
    capture.handle(Event::FileRemoved(true));
    assert_eq!(capture.into_result(), Some(Ok(Vec::new())));
}

#[test]
fn event_that_does_not_answer_counts_as_failure() {
    let mut capture = wayland_screenshot(0, 0, 1, 1);
    capture.handle(Event::FileRemoved(true));
    assert_eq!(capture.into_result(), Some(Err(CaptureError::BusConnectionFailed)));
    let mut capture = waiting(0, 0, 1, 1);
    capture.handle(Event::BusOpened(true));
    assert_eq!(capture.into_result(), Some(Err(CaptureError::BusConnectionFailed)));
}

#[test]
fn finished_capture_ignores_events() {
    let mut capture = wayland_screenshot(0, 0, 1, 1);
    capture.handle(Event::BusOpened(false));
    capture.handle(Event::BusOpened(true));
    capture.handle(response(0, Some("file:///tmp/shot.png")));
    assert!(capture.is_finished());
    assert_eq!(capture.into_result(), Some(Err(CaptureError::BusConnectionFailed)));
}

#[test]
fn every_capture_ends_within_sixty_nine_events() {
    let mut capture = wayland_screenshot(0, 0, 1, 1);
    let mut events = 0;
    capture.handle(Event::BusOpened(true));
    capture.handle(Event::TempFileNamed(Some(String::from("/tmp/screenshot/1.png"))));
    capture.handle(Event::ShellReplied(true));
    capture.handle(Event::FileRead(Some(vec![1])));
    capture.handle(Event::FileRemoved(false));
    capture.handle(Event::Subscribed(true));
    capture.handle(Event::PortalReplied(true));
    events += 7;
    for _ in 0..59 {
        capture.handle(silence());
        events += 1;
    }
    capture.handle(response(0, Some("file:///tmp/shot.png")));
    capture.handle(Event::FileRead(None));
    assert!(!capture.is_finished());
    capture.handle(Event::FileRemoved(true));
    events += 3;
    assert!(capture.is_finished());
    assert_eq!(events, 69);
}

#[test]
fn state_takes_the_first_response_only() {
    let mut state = PortalRequestState::new();
    assert_eq!(state.status(), None);
    state.record(OrgFreedesktopPortalRequestResponse { status: 1, uri: None });
    assert_eq!(state.status(), Some(1));
    state.record(OrgFreedesktopPortalRequestResponse {
        status: 0,
        uri: Some(String::from("file:///tmp/second.png")),
    });
    assert_eq!(state.status(), Some(1));
    let mut capture = waiting(0, 0, 1, 1);
    capture.handle(Event::BusProcessed { ok: true, state: state.snapshot() });
    assert_eq!(capture.into_result(), Some(Err(CaptureError::UserCancelled)));
}

#[test]
fn recorded_response_outweighs_a_bus_failure() {
    let mut state = PortalRequestState::new();
    state.record(OrgFreedesktopPortalRequestResponse {
        status: 3,
        uri: Some(String::from("file:///tmp/partial.png")),
    });
    let mut capture = waiting(0, 0, 1, 1);
    capture.handle(Event::BusProcessed { ok: false, state });
    assert!(matches!(capture.action(), Action::RemoveFile(path) if path == "/tmp/partial.png"));
    capture.handle(Event::FileRemoved(true));
    assert_eq!(capture.into_result(), Some(Err(CaptureError::UserCancelled)));
}

fn display(numer: u32, denom: u32) -> DisplayInfo {
    DisplayInfo {
        x: 0,
        y: 0,
        width: 1920,
        height: 1080,
        scale_factor: ScaleFactor::new(numer, denom).unwrap(),
    }
}

#[test]
fn capture_of_an_area_reports_the_size_asked_for() {
    let mut capture = wayland_capture_screen_area(&display(1, 1), 100, 50, 200, 150);
    let plan = capture.plan();
    assert_eq!(plan.source, DeviceRegion { x: 100, y: 50, width: 200, height: 150 });
    assert_eq!((plan.width, plan.height), (200, 150));
    assert!(matches!(capture.action(), Action::OpenSessionBus));
    capture.handle(Event::BusOpened(true));
    capture.handle(Event::TempFileNamed(Some(String::from("/tmp/screenshot/5.png"))));
    match capture.action() {
        Action::CallShell { x, y, width, height, flash, .. } => {
            assert_eq!((x, y, width, height, flash), (100, 50, 200, 150, false));
        }
        other => panic!("unexpected action {:?}", other),
    }
    capture.handle(Event::ShellReplied(true));
    capture.handle(Event::FileRead(Some(vec![9; 12])));
    assert!(!capture.is_finished());
    assert!(capture.is_finished() == false);
    capture.handle(Event::FileRemoved(true));
    assert!(capture.is_finished());
    let image = capture.into_image().unwrap().unwrap();
    assert_eq!((image.width, image.height), (200, 150));
    assert_eq!(image.layout, PixelLayout::Rgba);
    assert_eq!(image.stride, 800);
    assert_eq!(image.bytes, vec![9; 12]);
}

#[test]
fn capture_of_an_area_on_a_scaled_display() {
    let mut capture = wayland_capture_screen_area(&display(2, 1), 1, 1, 1, 1);
    let plan = capture.plan();
    assert_eq!(plan.source, DeviceRegion { x: 2, y: 2, width: 2, height: 2 });
    assert_eq!((plan.width, plan.height), (1, 1));
    capture.handle(Event::BusOpened(true));
    capture.handle(Event::TempFileNamed(None));
    capture.handle(Event::Subscribed(true));
    capture.handle(Event::PortalReplied(true));
    capture.handle(response(0, Some("file:///tmp/shot.png")));
    let pixels: Vec<u8> = (1..=64).collect();
    capture.handle(Event::FileRead(Some(png_file(4, 4, &pixels))));
    capture.handle(Event::FileRemoved(true));
    let image = capture.into_image().unwrap().unwrap();
    // The image reports the logical size and holds the device pixels.
    assert_eq!((image.width, image.height), (1, 1));
    assert_eq!(image.bytes, vec![41, 42, 43, 44, 45, 46, 47, 48, 57, 58, 59, 60, 61, 62, 63, 64]);
    assert!(!image.is_fully_populated());
}

#[test]
fn capture_of_a_display_reports_the_device_size() {
    let mut capture = wayland_capture_screen(&display(3, 2));
    let plan = capture.plan();
    assert_eq!(plan.source, DeviceRegion { x: 0, y: 0, width: 2880, height: 1620 });
    assert_eq!((plan.width, plan.height), (2880, 1620));
    assert!(capture.into_image().is_none());
    capture = wayland_capture_screen(&display(3, 2));
    capture.handle(Event::BusOpened(false));
    assert_eq!(capture.into_image().unwrap().unwrap_err(), CaptureError::BusConnectionFailed);
}

#[test]
fn lengths_saturate_on_the_bus() {
    let huge = DisplayInfo {
        x: 0,
        y: 0,
        width: u32::MAX,
        height: 3,
        scale_factor: ScaleFactor::one(),
    };
    let mut capture = wayland_capture_screen(&huge);
    capture.handle(Event::BusOpened(true));
    capture.handle(Event::TempFileNamed(Some(String::from("f"))));
    assert!(matches!(capture.action(), Action::CallShell { width: i32::MAX, height: 3, .. }));
}
