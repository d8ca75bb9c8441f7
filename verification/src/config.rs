//! The fixed startup configuration of the harness. The values that the
//! original initialization sequences hard-code — window size, buffer element
//! count, queue priority — are gathered in one named structure so that they
//! can be varied and tested.

use vstd::prelude::*;

verus! {

/// Width, in pixels, of the legacy backend's window.
pub const WINDOW_WIDTH: u32 = 1280;

/// Height, in pixels, of the legacy backend's window.
pub const WINDOW_HEIGHT: u32 = 720;

/// Number of elements in the explicit backend's linear data buffer.
pub const BUFFER_ELEMENTS: u32 = 65536;

/// Priority of the single device queue, in percent of the maximum.
pub const QUEUE_PRIORITY_PERCENT: u8 = 50;

/// Major version of the context requested by the legacy backend's hints.
pub const CONTEXT_VERSION_MAJOR: u32 = 4;

/// Minor version of the context requested by the legacy backend's hints.
pub const CONTEXT_VERSION_MINOR: u32 = 5;

/// The fixed title of the legacy backend's window.
pub fn window_title() -> (t: &'static str)
    ensures
        t@ == "LearnOpenGL"@,
{
    "LearnOpenGL"
}

/// The startup configuration: every fixed constant that the two backends use.
#[derive(Clone, Copy, Debug, PartialEq, Eq, Structural)]
pub struct Config {
    /// Width of the legacy backend's window, in pixels.
    pub window_width: u32,
    /// Height of the legacy backend's window, in pixels.
    pub window_height: u32,
    /// Number of elements in the explicit backend's data buffer.
    pub buffer_elements: u32,
    /// Queue priority as a percentage (0 to 100) of the maximum priority.
    pub queue_priority_percent: u8,
    /// Major version of the context the legacy backend's hints request.
    pub context_version_major: u32,
    /// Minor version of the context the legacy backend's hints request.
    pub context_version_minor: u32,
    /// Whether the legacy backend's hints request the core profile.
    pub core_profile: bool,
}

impl Config {
    /// A configuration is well formed when the window has a positive area and
    /// the queue priority is a valid percentage.
    pub open spec fn wf(self) -> bool {
        &&& self.window_width > 0
        &&& self.window_height > 0
        &&& self.queue_priority_percent <= 100
    }

    /// The standard configuration of the harness: a 1280 by 720 window, a
    /// buffer of 65536 elements, a queue at half priority, and hints for a
    /// version 4.5 core-profile context.
    pub fn standard() -> (c: Config)
        ensures
            c.window_width == WINDOW_WIDTH,
            c.window_height == WINDOW_HEIGHT,
            c.buffer_elements == BUFFER_ELEMENTS,
            c.queue_priority_percent == QUEUE_PRIORITY_PERCENT,
            c.context_version_major == CONTEXT_VERSION_MAJOR,
            c.context_version_minor == CONTEXT_VERSION_MINOR,
            c.core_profile,
            c.wf(),
    {
        Config {
            window_width: WINDOW_WIDTH,
            window_height: WINDOW_HEIGHT,
            buffer_elements: BUFFER_ELEMENTS,
            queue_priority_percent: QUEUE_PRIORITY_PERCENT,
            context_version_major: CONTEXT_VERSION_MAJOR,
            context_version_minor: CONTEXT_VERSION_MINOR,
            core_profile: true,
        }
    }
}

} // verus!
