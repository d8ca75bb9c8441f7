//! The explicit-API compute path. From the probe report it plans the device
//! request — the first adapter, its first compute-capable queue family, a
//! single queue at the configured priority — and prepares the initial contents
//! of the linear data buffer. The setup itself (device creation, buffer
//! allocation, shader load, pipeline build) is a fixed sequence of steps, each
//! fatal on failure; the step machine here records that sequence and the error
//! each step reports, and the binary feeds it the outcome of every driver call.

use vstd::prelude::*;

use crate::config::Config;
use crate::errors::InitError;
use crate::probe::ProbeReport;
use crate::probe::has_compute_family;
use crate::probe::select_queue_family;

verus! {

/// The planned device request of the explicit compute path.
#[derive(Clone, Copy, Debug, PartialEq, Eq, Structural)]
pub struct ComputePlan {
    /// Index of the chosen adapter in the probe report: the first adapter, in
    /// enumeration order, that exposes a compute-capable queue family.
    pub adapter_index: usize,
    /// Index of the chosen queue family on that adapter: the first family
    /// whose queues can dispatch compute work.
    pub queue_family_index: usize,
    /// How many queues are requested from the chosen family: always one.
    pub queue_count: u32,
    /// Priority of the single requested queue, in percent of the maximum.
    pub queue_priority_percent: u8,
    /// Whether the storage-buffer storage-class device extension is
    /// requested: always.
    pub storage_buffer_storage_class: bool,
    /// Whether any other device extension is requested: never.
    pub other_extensions: bool,
    /// Whether any optional device feature is requested: never.
    pub optional_features: bool,
    /// Number of elements the data buffer is allocated for.
    pub buffer_elements: u32,
}

/// Plan the explicit compute path from the probe report: take the first
/// adapter, in enumeration order, that exposes a compute-capable queue
/// family, and on it the first such family. With no adapter at all the plan
/// fails with `NoAdapter`; when no adapter has a compute-capable family it
/// fails with `NoComputeQueueFamily`; otherwise it succeeds, requesting a
/// single queue at the configured priority, the storage-buffer storage-class
/// extension and nothing else, and the configured buffer size.
pub fn plan_compute(report: &ProbeReport, config: &Config) -> (r: Result<ComputePlan, InitError>)
    ensures
        report.adapters@.len() == 0 ==> r == Err::<ComputePlan, InitError>(InitError::NoAdapter),
        report.adapters@.len() > 0 ==> {
            if exists|i: int|
                0 <= i < report.adapters@.len()
                    && has_compute_family(#[trigger] report.adapters@[i]) {
                r matches Ok(plan) && {
                    let fams = report.adapters@[plan.adapter_index as int].queue_families@;
                    &&& plan.adapter_index < report.adapters@.len()
                    &&& has_compute_family(report.adapters@[plan.adapter_index as int])
                    &&& forall|i: int|
                        0 <= i < plan.adapter_index
                            ==> !has_compute_family(#[trigger] report.adapters@[i])
                    &&& plan.queue_family_index < fams.len()
                    &&& fams[plan.queue_family_index as int].supports_compute
                    &&& forall|j: int|
                        0 <= j < plan.queue_family_index
                            ==> !(#[trigger] fams[j]).supports_compute
                    &&& plan.queue_count == 1
                    &&& plan.queue_priority_percent == config.queue_priority_percent
                    &&& plan.storage_buffer_storage_class
                    &&& !plan.other_extensions
                    &&& !plan.optional_features
                    &&& plan.buffer_elements == config.buffer_elements
                }
            } else {
                r == Err::<ComputePlan, InitError>(InitError::NoComputeQueueFamily)
            }
        },
{
    if report.adapters.len() == 0 {
        return Err(InitError::NoAdapter);
    }
    let mut i: usize = 0;
    while i < report.adapters.len()
        invariant
            i <= report.adapters@.len(),
            forall|k: int|
                0 <= k < i ==> !has_compute_family(#[trigger] report.adapters@[k]),
        decreases report.adapters@.len() - i,
    {
        match select_queue_family(&report.adapters[i]) {
            Some(q) => {
                return Ok(
                    ComputePlan {
                        adapter_index: i,
                        queue_family_index: q,
                        queue_count: 1,
                        queue_priority_percent: config.queue_priority_percent,
                        storage_buffer_storage_class: true,
                        other_extensions: false,
                        optional_features: false,
                        buffer_elements: config.buffer_elements,
                    },
                );
            },
            None => {},
        }
        i = i + 1;
    }
    Err(InitError::NoComputeQueueFamily)
}

/// The initial contents of the data buffer: the sequential integer range
/// `0 .. n`, in order.
pub fn sequential_data(n: u32) -> (v: Vec<u32>)
    ensures
        v@.len() == n,
        forall|i: int| 0 <= i < n ==> #[trigger] v@[i] == i,
{
    let mut v: Vec<u32> = Vec::new();
    let mut i: u32 = 0;
    while i < n
        invariant
            i <= n,
            v@.len() == i,
            forall|k: int| 0 <= k < i ==> #[trigger] v@[k] == k,
        decreases n - i,
    {
        v.push(i);
        i = i + 1;
    }
    v
}

/// The stages of the explicit path's setup, in the order they run. Every
/// stage's driver call is fatal on failure, so the machine either walks the
/// stages in order to `Complete` or stops in `Failed` with that stage's error.
#[derive(Clone, Copy, Debug, PartialEq, Eq, Structural)]
pub enum ExplicitStage {
    /// Requesting the logical device and its single queue.
    CreateDevice,
    /// Allocating the CPU-visible linear data buffer.
    AllocateBuffer,
    /// Reading the external shader source file at its fixed path.
    ReadShaderFile,
    /// Building the shader module from the shader source.
    LoadShaderModule,
    /// Constructing the compute pipeline from the shader module.
    BuildPipeline,
    /// Every stage succeeded; the pipeline object exists.
    Complete,
    /// A stage failed; no further object is created.
    Failed(InitError),
}

/// The successor of `stage` once its driver call reported `succeeded`.
/// `Complete` and `Failed` are terminal.
pub open spec fn explicit_advance_spec(stage: ExplicitStage, succeeded: bool) -> ExplicitStage {
    match stage {
        ExplicitStage::CreateDevice => if succeeded {
            ExplicitStage::AllocateBuffer
        } else {
            ExplicitStage::Failed(InitError::DeviceCreationFailed)
        },
        ExplicitStage::AllocateBuffer => if succeeded {
            ExplicitStage::ReadShaderFile
        } else {
            ExplicitStage::Failed(InitError::BufferAllocationFailed)
        },
        ExplicitStage::ReadShaderFile => if succeeded {
            ExplicitStage::LoadShaderModule
        } else {
            ExplicitStage::Failed(InitError::ShaderFileMissing)
        },
        ExplicitStage::LoadShaderModule => if succeeded {
            ExplicitStage::BuildPipeline
        } else {
            ExplicitStage::Failed(InitError::ShaderLoadFailed)
        },
        ExplicitStage::BuildPipeline => if succeeded {
            ExplicitStage::Complete
        } else {
            ExplicitStage::Failed(InitError::PipelineBuildFailed)
        },
        ExplicitStage::Complete => ExplicitStage::Complete,
        ExplicitStage::Failed(e) => ExplicitStage::Failed(e),
    }
}

/// Advance the setup machine by one stage outcome.
pub fn explicit_advance(stage: ExplicitStage, succeeded: bool) -> (next: ExplicitStage)
    ensures
        next == explicit_advance_spec(stage, succeeded),
        (stage is Complete || stage is Failed) ==> next == stage,
        (!(stage is Complete) && !(stage is Failed) && !succeeded) ==> next is Failed,
{
    match stage {
        ExplicitStage::CreateDevice => if succeeded {
            ExplicitStage::AllocateBuffer
        } else {
            ExplicitStage::Failed(InitError::DeviceCreationFailed)
        },
        ExplicitStage::AllocateBuffer => if succeeded {
            ExplicitStage::ReadShaderFile
        } else {
            ExplicitStage::Failed(InitError::BufferAllocationFailed)
        },
        ExplicitStage::ReadShaderFile => if succeeded {
            ExplicitStage::LoadShaderModule
        } else {
            ExplicitStage::Failed(InitError::ShaderFileMissing)
        },
        ExplicitStage::LoadShaderModule => if succeeded {
            ExplicitStage::BuildPipeline
        } else {
            ExplicitStage::Failed(InitError::ShaderLoadFailed)
        },
        ExplicitStage::BuildPipeline => if succeeded {
            ExplicitStage::Complete
        } else {
            ExplicitStage::Failed(InitError::PipelineBuildFailed)
        },
        ExplicitStage::Complete => ExplicitStage::Complete,
        ExplicitStage::Failed(e) => ExplicitStage::Failed(e),
    }
}

/// The stage reached from `stage` after the sequence of outcomes `events`.
pub open spec fn explicit_run(stage: ExplicitStage, events: Seq<bool>) -> ExplicitStage
    decreases events.len(),
{
    if events.len() == 0 {
        stage
    } else {
        explicit_run(explicit_advance_spec(stage, events[0]), events.drop_first())
    }
}

/// A failure of the explicit path is permanent: once a stage has failed, no
/// later outcome re-enters a creation stage or reaches `Complete`.
pub proof fn lemma_explicit_failure_is_permanent(e: InitError, events: Seq<bool>)
    ensures
        explicit_run(ExplicitStage::Failed(e), events) == ExplicitStage::Failed(e),
    decreases events.len(),
{
    if events.len() > 0 {
        lemma_explicit_failure_is_permanent(e, events.drop_first());
    }
}

/// A missing shader source file makes the explicit path fail fast: from the
/// shader-read stage, a failed read puts the machine in
/// `Failed(ShaderFileMissing)`, and whatever outcomes follow, it stays there —
/// neither the shader module nor the pipeline is ever created afterwards.
pub proof fn lemma_missing_shader_fails_explicit(events: Seq<bool>)
    ensures
        explicit_run(
            ExplicitStage::ReadShaderFile,
            seq![false] + events,
        ) == ExplicitStage::Failed(InitError::ShaderFileMissing),
{
    let all = seq![false] + events;
    assert(all[0] == false);
    assert(all.drop_first() =~= events);
    lemma_explicit_failure_is_permanent(InitError::ShaderFileMissing, events);
}

} // verus!
