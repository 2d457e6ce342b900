use helmer_micro::buffer::{PushOutcome, DEFAULT_CAPACITY};
use helmer_micro::device::{CaptureHandle, ReleaseOutcome};
use helmer_micro::error::{AcquireError, CaptureError, Remedy};
use helmer_micro::frame::{Frame, PixelFormat};
use helmer_micro::region::{LogicalRect, Monitor, Region, ScaleFactor};
use helmer_micro::session::{AppState, Artifact, Command, Status};

/// Stand-in for the capture device: it remembers the region it was bound to.
#[derive(Debug, PartialEq, Eq)]
struct Device {
    region: Region,
}

type Session = AppState<Device>;

fn frame(timestamp: u64) -> Frame {
    Frame::new(timestamp, 1, 1, 4, PixelFormat::Bgra, vec![0, 0, 0, 255])
}

fn stamps(artifact: &Artifact) -> Vec<u64> {
    let mut out = Vec::new();
    for f in &artifact.frames {
        out.push(f.timestamp);
    }
    out
}

fn monitor() -> Monitor {
    Monitor::new(0, 1920, 1080).unwrap()
}

fn select(session: &mut Session) -> Result<(), CaptureError> {
    session.select_region(
        &monitor(),
        LogicalRect { x: 0, y: 0, width: 800, height: 600 },
        ScaleFactor::identity(),
    )
}

fn acquire(region: Region) -> Result<Device, AcquireError> {
    Ok(Device { region })
}

fn selected() -> Session {
    let mut session = Session::new(16);
    assert_eq!(select(&mut session), Ok(()));
    session
}

fn recording() -> Session {
    let mut session = selected();
    assert_eq!(session.start_recording(true, acquire), Ok(()));
    session
}

fn stopped() -> Session {
    let mut session = recording();
    assert!(session.stop_recording(|_| ReleaseOutcome::Released).is_ok());
    session
}

#[test]
fn new_session_is_idle_and_empty() {
    let session = Session::new(16);
    assert_eq!(session.query_status(), Status::Idle);
    assert_eq!(session.region(), None);
    assert_eq!(session.device(), None);
    assert_eq!(session.frame_count(), 0);
    assert_eq!(session.capacity(), 16);
    assert_eq!(session.preview_path(), None);
}

#[test]
fn default_session_has_the_default_capacity() {
    let session = Session::default();
    assert_eq!(session.query_status(), Status::Idle);
    assert_eq!(session.capacity(), DEFAULT_CAPACITY);
}

/// The fraction, in thousandths, that stands for a scale factor.
fn scale(factor: f64) -> ScaleFactor {
    ScaleFactor::new((factor * 1000.0).round() as u32, 1000).unwrap()
}

#[test]
fn recording_scenario_hands_over_the_frames_in_order() {
    let mut session = Session::new(16);
    let rect = LogicalRect { x: 0, y: 0, width: 800, height: 600 };
    assert_eq!(session.select_region(&monitor(), rect, scale(1.0)), Ok(()));
    assert_eq!(session.region(), Some(Region { x: 0, y: 0, width: 800, height: 600 }));
    assert_eq!(session.start_recording(true, acquire), Ok(()));
    assert_eq!(session.query_status(), Status::Recording);
    for t in [10u64, 20, 30] {
        assert_eq!(session.push_frame(frame(t)), Ok(PushOutcome::Stored));
    }
    let artifact = session.stop_recording(|_| ReleaseOutcome::Released).unwrap();
    assert_eq!(stamps(&artifact), vec![10, 20, 30]);
    assert_eq!(session.query_status(), Status::Stopped);
    assert_eq!(session.frame_count(), 0);
    assert_eq!(session.device(), None);
}

#[test]
fn start_while_idle_is_an_invalid_transition() {
    let mut session = Session::new(16);
    let mut asked = 0u32;
    let started = session.start_recording(true, |region| {
        asked += 1;
        acquire(region)
    });
    assert_eq!(started, Err(CaptureError::InvalidTransition));
    assert_eq!(session.query_status(), Status::Idle);
    assert_eq!(asked, 0);
}

#[test]
fn select_region_scales_and_stores_the_region() {
    let mut session = Session::new(16);
    let done = session.select_region(
        &monitor(),
        LogicalRect { x: 10, y: 20, width: 100, height: 50 },
        ScaleFactor::new(2, 1).unwrap(),
    );
    assert_eq!(done, Ok(()));
    assert_eq!(session.query_status(), Status::RegionSelected);
    assert_eq!(session.region(), Some(Region { x: 20, y: 40, width: 200, height: 100 }));
}

#[test]
fn zero_area_selection_leaves_the_session_idle() {
    let mut session = Session::new(16);
    let done = session.select_region(
        &monitor(),
        LogicalRect { x: 10, y: 20, width: 0, height: 50 },
        ScaleFactor::identity(),
    );
    assert_eq!(done, Err(CaptureError::InvalidRegion));
    assert_eq!(session.query_status(), Status::Idle);
    assert_eq!(session.region(), None);
}

#[test]
fn zero_area_selection_is_invalid_in_every_state() {
    let empty = LogicalRect { x: 0, y: 0, width: 5, height: 0 };
    for mut session in [Session::new(4), selected(), recording(), stopped()] {
        let before = session.query_status();
        let done = session.select_region(&monitor(), empty, ScaleFactor::identity());
        assert_eq!(done, Err(CaptureError::InvalidRegion));
        assert_eq!(session.query_status(), before);
    }
}

#[test]
fn select_is_valid_only_while_idle() {
    for mut session in [selected(), recording(), stopped()] {
        let before = session.query_status();
        let region = session.region();
        assert_eq!(select(&mut session), Err(CaptureError::InvalidTransition));
        assert_eq!(session.query_status(), before);
        assert_eq!(session.region(), region);
    }
}

#[test]
fn start_is_valid_only_with_a_region_selected() {
    for mut session in [Session::new(4), recording(), stopped()] {
        let before = session.query_status();
        assert_eq!(session.start_recording(true, acquire), Err(CaptureError::InvalidTransition));
        assert_eq!(session.query_status(), before);
    }
}

#[test]
fn start_binds_the_device_to_the_selected_region() {
    let session = recording();
    let region = Region { x: 0, y: 0, width: 800, height: 600 };
    assert_eq!(session.device(), Some(&CaptureHandle { device: Device { region }, region }));
    assert_eq!(session.region(), Some(region));
}

#[test]
fn start_without_permission_is_denied_and_acquires_nothing() {
    let mut session = selected();
    let mut asked = 0u32;
    let started = session.start_recording(false, |region| {
        asked += 1;
        acquire(region)
    });
    assert_eq!(started, Err(CaptureError::PermissionDenied));
    assert_eq!(asked, 0);
    assert_eq!(session.query_status(), Status::RegionSelected);
    assert_eq!(session.device(), None);
}

#[test]
fn start_on_a_busy_device_stays_selected() {
    let mut session = selected();
    let started = session.start_recording(true, |_| Err(AcquireError::DeviceBusy));
    assert_eq!(started, Err(CaptureError::DeviceBusy));
    assert_eq!(session.query_status(), Status::RegionSelected);
    assert_eq!(session.device(), None);
    assert_eq!(session.start_recording(true, acquire), Ok(()));
}

#[test]
fn start_on_an_unsupported_region_stays_selected() {
    let mut session = selected();
    let started = session.start_recording(true, |_| Err(AcquireError::UnsupportedRegion));
    assert_eq!(started, Err(CaptureError::UnsupportedRegion));
    assert_eq!(session.query_status(), Status::RegionSelected);
    assert_eq!(session.device(), None);
}

#[test]
fn start_refused_by_the_device_for_permission_stays_selected() {
    let mut session = selected();
    let started = session.start_recording(true, |_| Err(AcquireError::PermissionDenied));
    assert_eq!(started, Err(CaptureError::PermissionDenied));
    assert_eq!(session.query_status(), Status::RegionSelected);
}

#[test]
fn finish_start_takes_the_answer_of_the_device() {
    let region = Region { x: 0, y: 0, width: 800, height: 600 };
    let mut session = selected();
    assert_eq!(session.finish_start(Err(AcquireError::DeviceBusy)), Err(CaptureError::DeviceBusy));
    assert_eq!(session.query_status(), Status::RegionSelected);
    assert_eq!(session.finish_start(Ok(Device { region })), Ok(()));
    assert_eq!(session.query_status(), Status::Recording);
    assert_eq!(session.device(), Some(&CaptureHandle { device: Device { region }, region }));
}

#[test]
fn finish_start_is_valid_only_with_a_region_selected() {
    let region = Region { x: 0, y: 0, width: 800, height: 600 };
    for mut session in [Session::new(4), recording(), stopped()] {
        let before = session.query_status();
        let done = session.finish_start(Ok(Device { region: Region { x: 1, y: 1, width: 1, height: 1 } }));
        assert_eq!(done, Err(CaptureError::InvalidTransition));
        assert_eq!(session.query_status(), before);
        if before == Status::Recording {
            assert_eq!(session.device(), Some(&CaptureHandle { device: Device { region }, region }));
        } else {
            assert_eq!(session.device(), None);
        }
    }
}

#[test]
fn frames_are_taken_only_while_recording() {
    for mut session in [Session::new(4), selected(), stopped()] {
        assert_eq!(session.push_frame(frame(1)), Err(CaptureError::InvalidTransition));
        assert_eq!(session.frame_count(), 0);
    }
}

#[test]
fn capture_frame_reads_from_the_device_only_while_recording() {
    for mut session in [Session::new(4), selected(), stopped()] {
        let mut asked = 0u32;
        let stored = session.capture_frame(|_| {
            asked += 1;
            Some(frame(1))
        });
        assert_eq!(stored, Err(CaptureError::InvalidTransition));
        assert_eq!(asked, 0);
        assert_eq!(session.frame_count(), 0);
    }
}

#[test]
fn capture_frame_buffers_what_the_device_yields() {
    let mut session = recording();
    let region = Region { x: 0, y: 0, width: 800, height: 600 };
    let mut seen = Vec::new();
    let stored = session.capture_frame(|device| {
        seen.push(device.region);
        Some(frame(10))
    });
    assert_eq!(stored, Ok(Some(PushOutcome::Stored)));
    assert_eq!(seen, vec![region]);
    assert_eq!(session.capture_frame(|_| Some(frame(5))), Ok(Some(PushOutcome::Rejected)));
    assert_eq!(session.capture_frame(|_| None), Ok(None));
    assert_eq!(session.frame_count(), 1);
    let artifact = session.stop_recording(|_| ReleaseOutcome::Released).unwrap();
    assert_eq!(stamps(&artifact), vec![10]);
}

#[test]
fn session_buffer_drops_the_oldest_and_rejects_stale_frames() {
    let mut session = Session::new(2);
    assert_eq!(select(&mut session), Ok(()));
    assert_eq!(session.start_recording(true, acquire), Ok(()));
    assert_eq!(session.push_frame(frame(10)), Ok(PushOutcome::Stored));
    assert_eq!(session.push_frame(frame(20)), Ok(PushOutcome::Stored));
    assert_eq!(session.push_frame(frame(15)), Ok(PushOutcome::Rejected));
    assert_eq!(session.push_frame(frame(30)), Ok(PushOutcome::DroppedOldest));
    assert_eq!(session.frame_count(), 2);
    let artifact = session.stop_recording(|_| ReleaseOutcome::Released).unwrap();
    assert_eq!(stamps(&artifact), vec![20, 30]);
}

#[test]
fn stop_is_valid_only_while_recording() {
    for mut session in [Session::new(4), selected(), stopped()] {
        let before = session.query_status();
        let mut released = 0u32;
        let result = session.stop_recording(|_| {
            released += 1;
            ReleaseOutcome::Released
        });
        assert_eq!(result, Err(CaptureError::InvalidTransition));
        assert_eq!(released, 0);
        assert_eq!(session.query_status(), before);
    }
}

#[test]
fn stop_releases_the_device_exactly_once() {
    let mut session = recording();
    let mut released = Vec::new();
    let result = session.stop_recording(|device| {
        released.push(device);
        ReleaseOutcome::Released
    });
    assert!(result.is_ok());
    assert_eq!(released, vec![Device { region: Region { x: 0, y: 0, width: 800, height: 600 } }]);
    assert_eq!(session.device(), None);
}

#[test]
fn stop_that_times_out_resets_to_idle_and_discards_the_frames() {
    let mut session = recording();
    session.push_frame(frame(10)).unwrap();
    session.push_frame(frame(20)).unwrap();
    let mut released = 0u32;
    let result = session.stop_recording(|_| {
        released += 1;
        ReleaseOutcome::TimedOut
    });
    assert_eq!(result, Err(CaptureError::DeviceReleaseTimeout));
    assert_eq!(released, 1);
    assert_eq!(session.query_status(), Status::Idle);
    assert_eq!(session.frame_count(), 0);
    assert_eq!(session.region(), None);
    assert_eq!(session.device(), None);
    assert_eq!(select(&mut session), Ok(()));
}

#[test]
fn cancel_while_recording_releases_the_device_exactly_once() {
    let mut session = recording();
    session.push_frame(frame(10)).unwrap();
    let mut released = 0u32;
    let done = session.cancel(|_| {
        released += 1;
        ReleaseOutcome::Released
    });
    assert_eq!(done, Ok(()));
    assert_eq!(released, 1);
    assert_eq!(session.query_status(), Status::Idle);
    assert_eq!(session.frame_count(), 0);
    assert_eq!(session.region(), None);
    assert_eq!(session.device(), None);
    let again = session.cancel(|_| {
        released += 1;
        ReleaseOutcome::Released
    });
    assert_eq!(again, Ok(()));
    assert_eq!(released, 1);
}

#[test]
fn cancel_that_times_out_is_reported_and_still_resets() {
    let mut session = recording();
    session.push_frame(frame(10)).unwrap();
    let mut released = 0u32;
    let done = session.cancel(|_| {
        released += 1;
        ReleaseOutcome::TimedOut
    });
    assert_eq!(done, Err(CaptureError::DeviceReleaseTimeout));
    assert_eq!(released, 1);
    assert_eq!(session.query_status(), Status::Idle);
    assert_eq!(session.frame_count(), 0);
    assert_eq!(session.device(), None);
}

#[test]
fn cancel_without_a_device_releases_nothing() {
    for mut session in [Session::new(4), selected()] {
        let mut released = 0u32;
        let done = session.cancel(|_| {
            released += 1;
            ReleaseOutcome::TimedOut
        });
        assert_eq!(done, Ok(()));
        assert_eq!(released, 0);
        assert_eq!(session.query_status(), Status::Idle);
        assert_eq!(session.region(), None);
    }
}

#[test]
fn cancel_after_the_stop_is_an_invalid_transition() {
    let mut session = stopped();
    let done = session.cancel(|_| ReleaseOutcome::Released);
    assert_eq!(done, Err(CaptureError::InvalidTransition));
    assert_eq!(session.query_status(), Status::Stopped);
    assert!(session.region().is_some());
}

#[test]
fn reset_is_valid_only_after_the_stop() {
    for mut session in [Session::new(4), selected(), recording()] {
        let before = session.query_status();
        assert_eq!(session.reset(), Err(CaptureError::InvalidTransition));
        assert_eq!(session.query_status(), before);
    }
}

#[test]
fn reset_discards_region_and_preview() {
    let mut session = stopped();
    assert_eq!(session.set_preview_path(String::from("/tmp/preview.gif")), Ok(()));
    assert_eq!(session.reset(), Ok(()));
    assert_eq!(session.query_status(), Status::Idle);
    assert_eq!(session.region(), None);
    assert_eq!(session.preview_path(), None);
    assert_eq!(session.capacity(), 16);
    assert_eq!(select(&mut session), Ok(()));
}

#[test]
fn preview_path_is_recorded_only_after_the_stop() {
    for mut session in [Session::new(4), selected(), recording()] {
        let done = session.set_preview_path(String::from("/tmp/preview.gif"));
        assert_eq!(done, Err(CaptureError::InvalidTransition));
        assert_eq!(session.preview_path(), None);
    }
    let mut session = stopped();
    assert_eq!(session.preview_path(), None);
    assert_eq!(session.set_preview_path(String::from("/tmp/preview.gif")), Ok(()));
    assert_eq!(session.preview_path(), Some(&String::from("/tmp/preview.gif")));
    assert_eq!(session.query_status(), Status::Stopped);
}

#[test]
fn permits_follows_the_transition_table() {
    let commands = [
        Command::Select,
        Command::Start,
        Command::Capture,
        Command::Stop,
        Command::Cancel,
        Command::Reset,
        Command::Preview,
    ];
    let table = [
        (Session::new(4), [true, false, false, false, true, false, false]),
        (selected(), [false, true, false, false, true, false, false]),
        (recording(), [false, false, true, true, true, false, false]),
        (stopped(), [false, false, false, false, false, true, true]),
    ];
    for (session, row) in table {
        for (command, expected) in commands.iter().zip(row) {
            assert_eq!(session.permits(*command), expected);
        }
    }
}

#[test]
fn a_second_recording_follows_the_first() {
    let mut session = stopped();
    assert_eq!(session.reset(), Ok(()));
    assert_eq!(select(&mut session), Ok(()));
    assert_eq!(session.start_recording(true, acquire), Ok(()));
    assert_eq!(session.push_frame(frame(5)), Ok(PushOutcome::Stored));
    let artifact = session.stop_recording(|_| ReleaseOutcome::Released).unwrap();
    assert_eq!(stamps(&artifact), vec![5]);
}

#[test]
fn select_region_at_a_fractional_scale() {
    let mut session = Session::new(16);
    let rect = LogicalRect { x: 10, y: 10, width: 101, height: 33 };
    assert_eq!(session.select_region(&monitor(), rect, scale(1.25)), Ok(()));
    assert_eq!(session.region(), Some(Region { x: 13, y: 13, width: 126, height: 41 }));
}

#[test]
fn every_error_has_its_remedy() {
    assert_eq!(CaptureError::InvalidRegion.remedy(), Remedy::SelectAgain);
    assert_eq!(CaptureError::PermissionDenied.remedy(), Remedy::GrantPermission);
    assert_eq!(CaptureError::DeviceBusy.remedy(), Remedy::RetryOtherRegion);
    assert_eq!(CaptureError::UnsupportedRegion.remedy(), Remedy::RetryOtherRegion);
    assert_eq!(CaptureError::InvalidTransition.remedy(), Remedy::LogDefect);
    assert_eq!(CaptureError::DeviceReleaseTimeout.remedy(), Remedy::ReportFailedRecording);
}

#[test]
fn errors_are_classified() {
    assert!(CaptureError::InvalidRegion.is_recoverable());
    assert!(CaptureError::PermissionDenied.is_recoverable());
    assert!(CaptureError::DeviceBusy.is_recoverable());
    assert!(CaptureError::UnsupportedRegion.is_recoverable());
    assert!(!CaptureError::InvalidTransition.is_recoverable());
    assert!(!CaptureError::DeviceReleaseTimeout.is_recoverable());
    assert!(CaptureError::DeviceReleaseTimeout.is_fatal_to_session());
    assert!(!CaptureError::InvalidTransition.is_fatal_to_session());
    assert!(!CaptureError::DeviceBusy.is_fatal_to_session());
}

#[test]
fn device_refusals_map_to_session_errors() {
    assert_eq!(
        CaptureError::from_acquire(AcquireError::PermissionDenied),
        CaptureError::PermissionDenied
    );
    assert_eq!(CaptureError::from_acquire(AcquireError::DeviceBusy), CaptureError::DeviceBusy);
    assert_eq!(
        CaptureError::from_acquire(AcquireError::UnsupportedRegion),
        CaptureError::UnsupportedRegion
    );
}
