//! Window configuration and the window's close flag.
//!
//! The demo asks its window/context provider for one window of a fixed
//! requested size, under fixed context hints. The provider owns the real
//! window; what the library models of it is the configuration handed over
//! at creation and the one piece of window state the logic reads and
//! writes: the close flag.

use vstd::prelude::*;

verus! {

/// The size a window is requested with. The provider may hand back a
/// different actual size (high-DPI scaling); the actual size is queried
/// after creation and fed to `viewport::initial_viewport`.
pub struct WindowConfig {
    pub width: i32,
    pub height: i32,
}

/// The fixed configuration the demo requests: an 800 x 600 window.
pub fn default_window_config() -> (c: WindowConfig)
    ensures
        c.width == 800,
        c.height == 600,
{
    WindowConfig { width: 800, height: 600 }
}

/// The context hints set before window creation: an OpenGL 4.1 core,
/// forward-compatible context.
pub struct ContextHints {
    pub version_major: u32,
    pub version_minor: u32,
    pub forward_compat: bool,
    pub core_profile: bool,
}

/// The fixed hints the demo sets.
pub fn context_hints() -> (h: ContextHints)
    ensures
        h.version_major == 4,
        h.version_minor == 1,
        h.forward_compat,
        h.core_profile,
{
    ContextHints { version_major: 4, version_minor: 1, forward_compat: true, core_profile: true }
}

/// The title the window is created with.
pub fn window_title() -> (s: &'static str)
    ensures
        s@ == "Hello this is window"@,
{
    "Hello this is window"
}

/// The window state the frame loop reads: whether closure has been
/// requested.
pub struct WindowState {
    pub close_requested: bool,
}

impl WindowState {
    /// A freshly created window: no closure requested yet.
    pub fn new() -> (w: WindowState)
        ensures
            !w.close_requested,
    {
        WindowState { close_requested: false }
    }

    /// Whether the loop should stop at its next check.
    pub fn should_close(&self) -> (r: bool)
        ensures
            r == self.close_requested,
    {
        self.close_requested
    }

    /// Requests (or withdraws) window closure.
    pub fn set_should_close(&mut self, value: bool)
        ensures
            final(self).close_requested == value,
    {
        self.close_requested = value;
    }
}

} // verus!
