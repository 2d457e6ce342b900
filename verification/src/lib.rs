//! Capture-session core of a screen recorder: the region selector, the capture
//! device handle, the bounded frame buffer and the session state machine.

pub mod buffer;
pub mod device;
pub mod error;
pub mod frame;
pub mod region;
pub mod session;
pub mod shell;
