//! The backend selector: one pure decision from the probe result, dispatched
//! exactly once.

use gpu_harness::backend::{fallback_diagnostic, select_backend, Backend};

#[test]
fn zero_adapters_select_legacy() {
    assert_eq!(select_backend(0), Backend::Legacy);
}

#[test]
fn one_adapter_selects_explicit() {
    assert_eq!(select_backend(1), Backend::Explicit);
}

#[test]
fn many_adapters_select_explicit() {
    assert_eq!(select_backend(3), Backend::Explicit);
}

#[test]
fn fallback_diagnostic_has_four_nonempty_lines() {
    let lines = fallback_diagnostic();
    assert_eq!(lines.len(), 4);
    for line in lines {
        assert!(!line.is_empty());
    }
}

#[test]
fn fallback_diagnostic_texts_are_fixed() {
    let lines = fallback_diagnostic();
    assert_eq!(lines[0], "Vulkan is not supported on any GPUs on this system.");
    assert_eq!(lines[1], "Please install a Vulkan ready driver");
    assert_eq!(
        lines[2],
        "Disabling your internal graphics card may help, too (but may black-out laptop displays)."
    );
    assert_eq!(lines[3], "Switching to OpenGL based GLSL.");
}
