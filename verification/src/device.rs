//! The capture device handle: the exclusive binding to the screen-capture
//! source of the platform, scoped to one region.
//!
//! The source itself is outside this library. Each operation on it is handed
//! in as a closure, so that the handle decides when the source is touched and
//! the caller decides how: `bind` acquires it, `capture` waits for its next
//! frame, `release` halts it and waits for the release to be confirmed.
//! A handle is not `Clone`, and `release` consumes it: a device that was
//! acquired once is released once.

use crate::error::AcquireError;
use crate::frame::Frame;
use crate::region::Region;
use vstd::prelude::*;

verus! {

/// Answer of the capture device to a request to let go of it.
#[derive(Clone, Copy, Debug, PartialEq, Eq, Structural)]
pub enum ReleaseOutcome {
    /// The device confirmed its release.
    Released,
    /// The device did not confirm in the time allowed.
    TimedOut,
}

/// An acquired capture device together with the region it records.
#[derive(Debug, PartialEq, Eq)]
pub struct CaptureHandle<D> {
    pub device: D,
    pub region: Region,
}

/// The handle that comes of an attempt to bind the device to `region`, for
/// each answer of the device.
pub open spec fn acquired<D>(region: Region, bound: Result<D, AcquireError>) -> Result<
    CaptureHandle<D>,
    AcquireError,
> {
    match bound {
        Ok(device) => Ok(CaptureHandle { device, region }),
        Err(error) => Err(error),
    }
}

impl<D> CaptureHandle<D> {
    /// Acquires the capture device for `region`. Without the permission of
    /// the operating system the device is not asked and the attempt fails
    /// with `PermissionDenied`; with it, `bind` is called once and decides.
    pub fn acquire<F>(region: Region, permission_granted: bool, bind: F) -> (handle: Result<
        CaptureHandle<D>,
        AcquireError,
    >) where F: FnOnce(Region) -> Result<D, AcquireError>
        requires
            permission_granted ==> call_requires(bind, (region,)),
        ensures
            !permission_granted ==> handle == Err::<CaptureHandle<D>, AcquireError>(
                AcquireError::PermissionDenied,
            ),
            permission_granted ==> exists|bound: Result<D, AcquireError>|
                #[trigger] call_ensures(bind, (region,), bound) && handle == acquired(
                    region,
                    bound,
                ),
    {
        if !permission_granted {
            return Err(AcquireError::PermissionDenied);
        }
        let bound = bind(region);
        CaptureHandle::from_answer(region, bound)
    }

    /// The handle for `region`, given what the device answered to the attempt
    /// to bind it.
    pub fn from_answer(region: Region, bound: Result<D, AcquireError>) -> (handle: Result<
        CaptureHandle<D>,
        AcquireError,
    >)
        ensures
            handle == acquired(region, bound),
    {
        match bound {
            Ok(device) => Ok(CaptureHandle { device, region }),
            Err(error) => Err(error),
        }
    }

    /// The next frame of the device, as `capture` reads it. The frame carries
    /// the time at which it was captured; `None` if the device yields no frame
    /// this time.
    pub fn next_frame<F>(&self, capture: F) -> (frame: Option<Frame>) where
        F: FnOnce(&D) -> Option<Frame>,
        requires
            call_requires(capture, (&self.device,)),
        ensures
            call_ensures(capture, (&self.device,), frame),
    {
        capture(&self.device)
    }

    /// Lets go of the device: `release` halts it and waits, no longer than its
    /// own bound, for the release to be confirmed. The handle is gone either
    /// way.
    pub fn release<F>(self, release: F) -> (outcome: ReleaseOutcome) where
        F: FnOnce(D) -> ReleaseOutcome,
        requires
            call_requires(release, (self.device,)),
        ensures
            call_ensures(release, (self.device,), outcome),
    {
        release(self.device)
    }
}

} // verus!
