//! Windowing and device events as the controller sees them.

use vstd::prelude::*;

verus! {

/// Identifier that the window system attaches to each window event.
#[derive(Clone, Copy, Debug, PartialEq, Eq, Hash, Structural)]
pub struct WindowId(pub u64);

/// Pixel dimensions of a window's drawable area.
#[derive(Clone, Copy, Debug, PartialEq, Eq, Hash, Structural)]
pub struct PhysicalSize {
    pub width: u32,
    pub height: u32,
}

impl PhysicalSize {
    /// Builds a size from its two dimensions.
    pub fn new(width: u32, height: u32) -> (size: PhysicalSize)
        ensures
            size == (PhysicalSize { width, height }),
    {
        PhysicalSize { width, height }
    }
}

/// A window event, reduced to what the dispatch policy distinguishes.
///
/// `Other` stands for every kind that the policy only traces; it carries the
/// host's rendering of the event so that the trace can show it.
#[derive(Clone, Debug, PartialEq, Eq)]
pub enum WindowEvent {
    CloseRequested,
    Destroyed,
    Resized(PhysicalSize),
    RedrawRequested,
    CursorMoved,
    TouchpadPressure,
    MouseWheel,
    Other(String),
}

/// A device-level event. `Other` carries the host's rendering of the event.
#[derive(Clone, Debug, PartialEq, Eq)]
pub enum DeviceEvent {
    MouseMotion,
    Other(String),
}

impl WindowEvent {
    /// Close and destroy both end the session.
    pub open spec fn is_terminal(self) -> bool {
        self is CloseRequested || self is Destroyed
    }

    /// High-frequency events that are acknowledged without any effect.
    pub open spec fn is_passive(self) -> bool {
        self is CursorMoved || self is TouchpadPressure || self is MouseWheel
    }
}

} // verus!
