//! The legacy immediate-context render path's setup. Opening the window,
//! loading function pointers, compiling the shader from the external source
//! file, and allocating the static GPU state happen in a fixed order, each
//! step fatal on failure. The step machine here records that order and the
//! error each step reports; the binary feeds it the outcome of every
//! windowing or driver call. The per-frame loop itself is modeled in
//! `render_loop`.

use vstd::prelude::*;

use crate::errors::InitError;

verus! {

/// The stages of the legacy path's setup, in the order they run.
#[derive(Clone, Copy, Debug, PartialEq, Eq, Structural)]
pub enum LegacyStage {
    /// Initializing the windowing library with the fixed version and profile hints.
    InitContext,
    /// Creating the fixed-size window and making its context current.
    CreateWindow,
    /// Reading the external shader source file at its fixed path.
    ReadShaderFile,
    /// Compiling the shader from the source that was read.
    CompileShader,
    /// Allocating the vertex array, vertex buffer and uniform buffer objects.
    AllocateObjects,
    /// Setup succeeded; the render loop may start.
    Ready,
    /// A stage failed; no further object is created.
    Failed(InitError),
}

/// The successor of `stage` once its call reported `succeeded`. `Ready` and
/// `Failed` are terminal.
pub open spec fn legacy_advance_spec(stage: LegacyStage, succeeded: bool) -> LegacyStage {
    match stage {
        LegacyStage::InitContext => if succeeded {
            LegacyStage::CreateWindow
        } else {
            LegacyStage::Failed(InitError::ContextInitFailed)
        },
        LegacyStage::CreateWindow => if succeeded {
            LegacyStage::ReadShaderFile
        } else {
            LegacyStage::Failed(InitError::WindowCreationFailed)
        },
        LegacyStage::ReadShaderFile => if succeeded {
            LegacyStage::CompileShader
        } else {
            LegacyStage::Failed(InitError::ShaderFileMissing)
        },
        LegacyStage::CompileShader => if succeeded {
            LegacyStage::AllocateObjects
        } else {
            LegacyStage::Failed(InitError::ShaderLoadFailed)
        },
        LegacyStage::AllocateObjects => if succeeded {
            LegacyStage::Ready
        } else {
            LegacyStage::Failed(InitError::BufferAllocationFailed)
        },
        LegacyStage::Ready => LegacyStage::Ready,
        LegacyStage::Failed(e) => LegacyStage::Failed(e),
    }
}

/// Advance the setup machine by one stage outcome.
pub fn legacy_advance(stage: LegacyStage, succeeded: bool) -> (next: LegacyStage)
    ensures
        next == legacy_advance_spec(stage, succeeded),
        (stage is Ready || stage is Failed) ==> next == stage,
        (!(stage is Ready) && !(stage is Failed) && !succeeded) ==> next is Failed,
{
    match stage {
        LegacyStage::InitContext => if succeeded {
            LegacyStage::CreateWindow
        } else {
            LegacyStage::Failed(InitError::ContextInitFailed)
        },
        LegacyStage::CreateWindow => if succeeded {
            LegacyStage::ReadShaderFile
        } else {
            LegacyStage::Failed(InitError::WindowCreationFailed)
        },
        LegacyStage::ReadShaderFile => if succeeded {
            LegacyStage::CompileShader
        } else {
            LegacyStage::Failed(InitError::ShaderFileMissing)
        },
        LegacyStage::CompileShader => if succeeded {
            LegacyStage::AllocateObjects
        } else {
            LegacyStage::Failed(InitError::ShaderLoadFailed)
        },
        LegacyStage::AllocateObjects => if succeeded {
            LegacyStage::Ready
        } else {
            LegacyStage::Failed(InitError::BufferAllocationFailed)
        },
        LegacyStage::Ready => LegacyStage::Ready,
        LegacyStage::Failed(e) => LegacyStage::Failed(e),
    }
}

/// The stage reached from `stage` after the sequence of outcomes `events`.
pub open spec fn legacy_run(stage: LegacyStage, events: Seq<bool>) -> LegacyStage
    decreases events.len(),
{
    if events.len() == 0 {
        stage
    } else {
        legacy_run(legacy_advance_spec(stage, events[0]), events.drop_first())
    }
}

/// A failure of the legacy setup is permanent: once a stage has failed, no
/// later outcome re-enters a creation stage or reaches `Ready`.
pub proof fn lemma_legacy_failure_is_permanent(e: InitError, events: Seq<bool>)
    ensures
        legacy_run(LegacyStage::Failed(e), events) == LegacyStage::Failed(e),
    decreases events.len(),
{
    if events.len() > 0 {
        lemma_legacy_failure_is_permanent(e, events.drop_first());
    }
}

/// A missing shader source file makes the legacy path fail fast: from the
/// shader-read stage, a failed read puts the machine in
/// `Failed(ShaderFileMissing)`, and whatever outcomes follow, it stays there —
/// no shader is compiled and no GPU object is allocated afterwards.
pub proof fn lemma_missing_shader_fails_legacy(events: Seq<bool>)
    ensures
        legacy_run(
            LegacyStage::ReadShaderFile,
            seq![false] + events,
        ) == LegacyStage::Failed(InitError::ShaderFileMissing),
{
    let all = seq![false] + events;
    assert(all[0] == false);
    assert(all.drop_first() =~= events);
    lemma_legacy_failure_is_permanent(InitError::ShaderFileMissing, events);
}

/// The GPU-side objects the legacy path allocates, tracked as scoped
/// resources: each is alive from allocation until the single release at loop
/// exit, and the release covers every allocated object.
#[derive(Clone, Copy, Debug, PartialEq, Eq, Structural)]
pub struct ResourceLedger {
    /// Whether the vertex array object is currently allocated.
    pub vertex_array_alive: bool,
    /// Whether the vertex buffer object is currently allocated.
    pub vertex_buffer_alive: bool,
    /// Whether the uniform buffer object is currently allocated.
    pub uniform_buffer_alive: bool,
}

impl ResourceLedger {
    /// All three objects have been allocated and none released yet.
    pub open spec fn all_alive(self) -> bool {
        self.vertex_array_alive && self.vertex_buffer_alive && self.uniform_buffer_alive
    }

    /// No object remains allocated.
    pub open spec fn all_released(self) -> bool {
        !self.vertex_array_alive && !self.vertex_buffer_alive && !self.uniform_buffer_alive
    }

    /// Record the allocation of the vertex array, vertex buffer and uniform
    /// buffer objects at setup.
    pub fn allocate() -> (r: ResourceLedger)
        ensures
            r.all_alive(),
    {
        ResourceLedger {
            vertex_array_alive: true,
            vertex_buffer_alive: true,
            uniform_buffer_alive: true,
        }
    }

    /// Record the single release of every allocated object at loop exit. The
    /// precondition makes a second release impossible: the objects are
    /// released exactly once.
    pub fn release_all(&mut self)
        requires
            old(self).all_alive(),
        ensures
            final(self).all_released(),
    {
        self.vertex_array_alive = false;
        self.vertex_buffer_alive = false;
        self.uniform_buffer_alive = false;
    }
}

} // verus!
