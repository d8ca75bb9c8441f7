//! The flat error taxonomy of the harness: every initialization failure in
//! either backend is reported with a descriptive message and is fatal to the
//! backend run. The one non-fatal condition, "no adapter found", is not an
//! error here; it triggers the backend fallback instead.

use vstd::prelude::*;

verus! {

/// A fatal initialization failure in one of the two backends.
#[derive(Clone, Copy, Debug, PartialEq, Eq, Structural)]
pub enum InitError {
    /// The explicit API reported no hardware adapter at all when one was expected.
    NoAdapter,
    /// The chosen adapter exposes no queue family able to dispatch compute work.
    NoComputeQueueFamily,
    /// The logical device could not be created on the chosen adapter.
    DeviceCreationFailed,
    /// The CPU-visible data buffer could not be allocated.
    BufferAllocationFailed,
    /// The external shader source file is absent at its fixed path.
    ShaderFileMissing,
    /// The shader module could not be built from the shader source.
    ShaderLoadFailed,
    /// The compute pipeline could not be constructed from the shader module.
    PipelineBuildFailed,
    /// The windowing library failed to initialize a context.
    ContextInitFailed,
    /// The window for the legacy context could not be created.
    WindowCreationFailed,
}

impl InitError {
    /// The exact text that describes each failure.
    pub open spec fn message_text(self) -> Seq<char> {
        match self {
            InitError::NoAdapter => "no device available"@,
            InitError::NoComputeQueueFamily => "couldn't find a compute queue family"@,
            InitError::DeviceCreationFailed => "failed to create device"@,
            InitError::BufferAllocationFailed => "failed to create buffer"@,
            InitError::ShaderFileMissing => "shader source file is missing"@,
            InitError::ShaderLoadFailed => "failed to create shader module"@,
            InitError::PipelineBuildFailed => "failed to create compute pipeline"@,
            InitError::ContextInitFailed => "failed to initialize the windowing context"@,
            InitError::WindowCreationFailed => "Failed to create GLFW window"@,
        }
    }

    /// A non-empty, human-readable description of the failure: exactly the
    /// text that `message_text` fixes for the variant.
    pub fn message(&self) -> (m: &'static str)
        ensures
            m@ == self.message_text(),
            m@.len() > 0,
    {
        match self {
            InitError::NoAdapter => {
                proof { reveal_strlit("no device available"); }
                "no device available"
            },
            InitError::NoComputeQueueFamily => {
                proof { reveal_strlit("couldn't find a compute queue family"); }
                "couldn't find a compute queue family"
            },
            InitError::DeviceCreationFailed => {
                proof { reveal_strlit("failed to create device"); }
                "failed to create device"
            },
            InitError::BufferAllocationFailed => {
                proof { reveal_strlit("failed to create buffer"); }
                "failed to create buffer"
            },
            InitError::ShaderFileMissing => {
                proof { reveal_strlit("shader source file is missing"); }
                "shader source file is missing"
            },
            InitError::ShaderLoadFailed => {
                proof { reveal_strlit("failed to create shader module"); }
                "failed to create shader module"
            },
            InitError::PipelineBuildFailed => {
                proof { reveal_strlit("failed to create compute pipeline"); }
                "failed to create compute pipeline"
            },
            InitError::ContextInitFailed => {
                proof { reveal_strlit("failed to initialize the windowing context"); }
                "failed to initialize the windowing context"
            },
            InitError::WindowCreationFailed => {
                proof { reveal_strlit("Failed to create GLFW window"); }
                "Failed to create GLFW window"
            },
        }
    }
}

} // verus!
