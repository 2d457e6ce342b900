use helmer_micro::device::{CaptureHandle, ReleaseOutcome};
use helmer_micro::error::AcquireError;
use helmer_micro::frame::{Frame, PixelFormat};
use helmer_micro::region::Region;

fn region() -> Region {
    Region { x: 4, y: 8, width: 640, height: 480 }
}

#[test]
fn acquire_binds_the_device_to_the_region() {
    let mut asked = Vec::new();
    let handle = CaptureHandle::acquire(region(), true, |r| {
        asked.push(r);
        Ok(7u32)
    });
    assert_eq!(handle, Ok(CaptureHandle { device: 7, region: region() }));
    assert_eq!(asked, vec![region()]);
}

#[test]
fn acquire_without_permission_does_not_ask_the_device() {
    let mut asked = 0u32;
    let handle = CaptureHandle::acquire(region(), false, |_| {
        asked += 1;
        Ok(7u32)
    });
    assert_eq!(handle, Err(AcquireError::PermissionDenied));
    assert_eq!(asked, 0);
}

#[test]
fn acquire_passes_on_the_refusal_of_the_device() {
    let busy: Result<CaptureHandle<u32>, AcquireError> =
        CaptureHandle::acquire(region(), true, |_| Err(AcquireError::DeviceBusy));
    assert_eq!(busy, Err(AcquireError::DeviceBusy));
    let unsupported: Result<CaptureHandle<u32>, AcquireError> =
        CaptureHandle::acquire(region(), true, |_| Err(AcquireError::UnsupportedRegion));
    assert_eq!(unsupported, Err(AcquireError::UnsupportedRegion));
    let denied: Result<CaptureHandle<u32>, AcquireError> =
        CaptureHandle::acquire(region(), true, |_| Err(AcquireError::PermissionDenied));
    assert_eq!(denied, Err(AcquireError::PermissionDenied));
}

#[test]
fn from_answer_wraps_the_device_or_keeps_the_refusal() {
    assert_eq!(
        CaptureHandle::from_answer(region(), Ok(3u8)),
        Ok(CaptureHandle { device: 3u8, region: region() })
    );
    assert_eq!(
        CaptureHandle::<u8>::from_answer(region(), Err(AcquireError::DeviceBusy)),
        Err(AcquireError::DeviceBusy)
    );
}

#[test]
fn next_frame_reads_from_the_held_device() {
    let handle = CaptureHandle { device: 21u64, region: region() };
    let frame = handle.next_frame(|device| {
        Some(Frame::new(*device * 2, 1, 1, 4, PixelFormat::Bgra, vec![1, 2, 3, 4]))
    });
    assert_eq!(frame.map(|f| f.timestamp), Some(42));
    assert_eq!(handle.next_frame(|_| None), None);
}

#[test]
fn release_hands_the_device_over_once() {
    let handle = CaptureHandle { device: String::from("display-0"), region: region() };
    let mut released = Vec::new();
    let outcome = handle.release(|device| {
        released.push(device);
        ReleaseOutcome::Released
    });
    assert_eq!(outcome, ReleaseOutcome::Released);
    assert_eq!(released, vec![String::from("display-0")]);
}

#[test]
fn release_reports_a_timeout() {
    let handle = CaptureHandle { device: 1u8, region: region() };
    assert_eq!(handle.release(|_| ReleaseOutcome::TimedOut), ReleaseOutcome::TimedOut);
}
