//! A captured frame: raw pixels with the time of capture and layout metadata.

use vstd::prelude::*;

verus! {

/// Memory layout of the pixels of a frame.
#[derive(Clone, Copy, Debug, PartialEq, Eq, Structural)]
pub enum PixelFormat {
    Rgb,
    Rgbx,
    Xbgr,
    Bgrx,
    Bgr0,
    Bgra,
    Yuv,
}

/// One captured image. `timestamp` is the moment the device delivered the
/// frame, not the moment the nominal cadence asked for it.
#[derive(Clone, Debug, PartialEq, Eq)]
pub struct Frame {
    pub timestamp: u64,
    pub width: u32,
    pub height: u32,
    pub stride: u32,
    pub format: PixelFormat,
    pub data: Vec<u8>,
}

impl Frame {
    /// A frame with the given capture time and pixel data.
    pub fn new(
        timestamp: u64,
        width: u32,
        height: u32,
        stride: u32,
        format: PixelFormat,
        data: Vec<u8>,
    ) -> (frame: Frame)
        ensures
            frame == (Frame { timestamp, width, height, stride, format, data }),
    {
        Frame { timestamp, width, height, stride, format, data }
    }
}

} // verus!
