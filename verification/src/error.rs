//! Errors of the capture session.

use vstd::prelude::*;

verus! {

/// Why a command of the capture session failed.
#[derive(Clone, Copy, Debug, PartialEq, Eq, Structural)]
pub enum CaptureError {
    /// The rectangle drawn has no area.
    InvalidRegion,
    /// The operating system has not granted screen recording.
    PermissionDenied,
    /// Another handle already holds the capture device.
    DeviceBusy,
    /// The capture device cannot record the selected area.
    UnsupportedRegion,
    /// The command is not valid in the current state.
    InvalidTransition,
    /// The capture device did not confirm its release in time.
    DeviceReleaseTimeout,
}

/// What the user interface does about an error.
#[derive(Clone, Copy, Debug, PartialEq, Eq, Structural)]
pub enum Remedy {
    /// Ask the user to draw the rectangle again.
    SelectAgain,
    /// Send the user to the permission settings of the operating system.
    GrantPermission,
    /// Offer to try again with another region.
    RetryOtherRegion,
    /// Log the defect of the caller; the session is as it was.
    LogDefect,
    /// Tell the user that the recording failed; the session was reset.
    ReportFailedRecording,
}

/// Why the capture device refused to be acquired.
#[derive(Clone, Copy, Debug, PartialEq, Eq, Structural)]
pub enum AcquireError {
    PermissionDenied,
    DeviceBusy,
    UnsupportedRegion,
}

/// The session error that stands for a refusal of the capture device.
pub open spec fn acquire_failure(error: AcquireError) -> CaptureError {
    match error {
        AcquireError::PermissionDenied => CaptureError::PermissionDenied,
        AcquireError::DeviceBusy => CaptureError::DeviceBusy,
        AcquireError::UnsupportedRegion => CaptureError::UnsupportedRegion,
    }
}

impl CaptureError {
    /// The session error that stands for a refusal of the capture device.
    pub fn from_acquire(error: AcquireError) -> (failure: CaptureError)
        ensures
            failure == acquire_failure(error),
    {
        match error {
            AcquireError::PermissionDenied => CaptureError::PermissionDenied,
            AcquireError::DeviceBusy => CaptureError::DeviceBusy,
            AcquireError::UnsupportedRegion => CaptureError::UnsupportedRegion,
        }
    }

    /// What the user interface does about the error.
    pub open spec fn remedy_of(self) -> Remedy {
        match self {
            CaptureError::InvalidRegion => Remedy::SelectAgain,
            CaptureError::PermissionDenied => Remedy::GrantPermission,
            CaptureError::DeviceBusy => Remedy::RetryOtherRegion,
            CaptureError::UnsupportedRegion => Remedy::RetryOtherRegion,
            CaptureError::InvalidTransition => Remedy::LogDefect,
            CaptureError::DeviceReleaseTimeout => Remedy::ReportFailedRecording,
        }
    }

    /// Whether the user can recover by trying again: with another rectangle,
    /// after granting permission, or once the device is free.
    pub open spec fn recoverable(self) -> bool {
        self == CaptureError::InvalidRegion || self == CaptureError::PermissionDenied || self
            == CaptureError::DeviceBusy || self == CaptureError::UnsupportedRegion
    }

    /// What the user interface does about the error.
    pub fn remedy(&self) -> (remedy: Remedy)
        ensures
            remedy == self.remedy_of(),
    {
        match self {
            CaptureError::InvalidRegion => Remedy::SelectAgain,
            CaptureError::PermissionDenied => Remedy::GrantPermission,
            CaptureError::DeviceBusy => Remedy::RetryOtherRegion,
            CaptureError::UnsupportedRegion => Remedy::RetryOtherRegion,
            CaptureError::InvalidTransition => Remedy::LogDefect,
            CaptureError::DeviceReleaseTimeout => Remedy::ReportFailedRecording,
        }
    }

    /// Whether the user can recover by trying again.
    pub fn is_recoverable(&self) -> (recoverable: bool)
        ensures
            recoverable == self.recoverable(),
    {
        match self {
            CaptureError::InvalidRegion => true,
            CaptureError::PermissionDenied => true,
            CaptureError::DeviceBusy => true,
            CaptureError::UnsupportedRegion => true,
            CaptureError::InvalidTransition => false,
            CaptureError::DeviceReleaseTimeout => false,
        }
    }

    /// Whether the error ends the session: only a release that timed out does,
    /// every other error leaves the session as it was.
    pub fn is_fatal_to_session(&self) -> (fatal: bool)
        ensures
            fatal == (*self == CaptureError::DeviceReleaseTimeout),
    {
        match self {
            CaptureError::DeviceReleaseTimeout => true,
            _ => false,
        }
    }
}

} // verus!
