//! Platform events as the application loop sees them.
use vstd::prelude::*;

verus! {

/// Width and height of a window's drawable area, in physical pixels.
#[derive(Clone, Copy, Debug, PartialEq, Eq, Structural)]
pub struct SurfaceSize {
    pub width: u32,
    pub height: u32,
}

impl SurfaceSize {
    /// A surface can only be configured with both dimensions non-zero.
    pub open spec fn is_drawable(self) -> bool {
        self.width > 0 && self.height > 0
    }

    pub fn new(width: u32, height: u32) -> (r: SurfaceSize)
        ensures
            r.width == width,
            r.height == height,
    {
        SurfaceSize { width, height }
    }

    pub fn drawable(&self) -> (r: bool)
        ensures
            r == self.is_drawable(),
    {
        self.width > 0 && self.height > 0
    }
}

/// A keyboard key; only the quit key is told apart from the rest.
#[derive(Clone, Copy, Debug, PartialEq, Eq, Structural)]
pub enum Key {
    Escape,
    Other(u32),
}

/// An event addressed to one window.
#[derive(Clone, Copy, Debug, PartialEq, Eq, Structural)]
pub enum WindowEvent {
    CloseRequested,
    KeyInput { key: Key, pressed: bool },
    Resized(SurfaceSize),
    ScaleFactorChanged(SurfaceSize),
    Other,
}

impl WindowEvent {
    /// A close request, or a press (not a release) of the quit key.
    pub open spec fn is_exit_request(self) -> bool {
        match self {
            WindowEvent::CloseRequested => true,
            WindowEvent::KeyInput { key, pressed } => key == Key::Escape && pressed,
            _ => false,
        }
    }

    /// The size a resize or scale change asks the surface to take.
    pub open spec fn resize_target(self) -> Option<SurfaceSize> {
        match self {
            WindowEvent::Resized(s) => Some(s),
            WindowEvent::ScaleFactorChanged(s) => Some(s),
            _ => None,
        }
    }

    pub fn requests_exit(&self) -> (r: bool)
        ensures
            r == self.is_exit_request(),
    {
        match self {
            WindowEvent::CloseRequested => true,
            WindowEvent::KeyInput { key, pressed } => match key {
                Key::Escape => *pressed,
                Key::Other(_) => false,
            },
            _ => false,
        }
    }

    pub fn new_size(&self) -> (r: Option<SurfaceSize>)
        ensures
            r == self.resize_target(),
    {
        match self {
            WindowEvent::Resized(s) => Some(*s),
            WindowEvent::ScaleFactorChanged(s) => Some(*s),
            _ => None,
        }
    }
}

/// An event from the platform's event source; windows are told apart by id.
#[derive(Clone, Copy, Debug, PartialEq, Eq, Structural)]
pub enum Event {
    Window { window: u64, event: WindowEvent },
    RedrawRequested(u64),
    EventsDrained,
    Other,
}

} // verus!
