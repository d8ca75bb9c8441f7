//! Backend selection. The selector makes one pure decision from the probe
//! result: with no usable adapter it falls back to the legacy immediate-mode
//! context, otherwise it proceeds with the explicit-API compute path. Each
//! startup dispatches exactly one backend.

use vstd::prelude::*;

verus! {

/// The two mutually exclusive backends of the harness.
#[derive(Clone, Copy, Debug, PartialEq, Eq, Structural)]
pub enum Backend {
    /// The explicit graphics/compute API path.
    Explicit,
    /// The legacy immediate-context render path, used as the fallback.
    Legacy,
}

/// The backend that a probe reporting `adapter_count` adapters selects.
pub open spec fn chosen_backend(adapter_count: nat) -> Backend {
    if adapter_count == 0 {
        Backend::Legacy
    } else {
        Backend::Explicit
    }
}

/// Select the backend from the number of adapters the capability prober
/// reported: the legacy path exactly when no adapter was found, the explicit
/// path otherwise.
pub fn select_backend(adapter_count: usize) -> (b: Backend)
    ensures
        b == chosen_backend(adapter_count as nat),
        b is Legacy <==> adapter_count == 0,
        b is Explicit <==> adapter_count > 0,
{
    if adapter_count == 0 {
        Backend::Legacy
    } else {
        Backend::Explicit
    }
}

/// The selector dispatches exactly one backend per startup: the legacy render
/// path is chosen if and only if the prober reported zero adapters, and the
/// explicit compute path is chosen if and only if it reported at least one;
/// no probe result selects both or neither.
pub proof fn lemma_backend_choice_exclusive(adapter_count: nat)
    ensures
        chosen_backend(adapter_count) is Legacy <==> adapter_count == 0,
        chosen_backend(adapter_count) is Explicit <==> adapter_count > 0,
        !(chosen_backend(adapter_count) is Legacy && chosen_backend(adapter_count) is Explicit),
{
}

/// The diagnostic printed when the explicit API reports no adapter and the
/// harness falls back to the legacy backend: four fixed, non-empty lines.
pub fn fallback_diagnostic() -> (lines: Vec<&'static str>)
    ensures
        lines@.len() == 4,
        lines@[0]@ == "Vulkan is not supported on any GPUs on this system."@,
        lines@[1]@ == "Please install a Vulkan ready driver"@,
        lines@[2]@
            == "Disabling your internal graphics card may help, too (but may black-out laptop displays)."@,
        lines@[3]@ == "Switching to OpenGL based GLSL."@,
        forall|i: int| 0 <= i < lines@.len() ==> #[trigger] lines@[i]@.len() > 0,
{
    proof {
        reveal_strlit("Vulkan is not supported on any GPUs on this system.");
        reveal_strlit("Please install a Vulkan ready driver");
        reveal_strlit(
            "Disabling your internal graphics card may help, too (but may black-out laptop displays).",
        );
        reveal_strlit("Switching to OpenGL based GLSL.");
    }
    let mut lines: Vec<&'static str> = Vec::new();
    lines.push("Vulkan is not supported on any GPUs on this system.");
    lines.push("Please install a Vulkan ready driver");
    lines.push(
        "Disabling your internal graphics card may help, too (but may black-out laptop displays).",
    );
    lines.push("Switching to OpenGL based GLSL.");
    lines
}

} // verus!
