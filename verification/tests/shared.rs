//! The configuration, the shader-file check, and the error messages shared by
//! both backends.

use gpu_harness::config::{window_title, Config};
use gpu_harness::errors::InitError;
use gpu_harness::shader::{check_shader_source, shader_path};

#[test]
fn standard_configuration_values() {
    let c = Config::standard();
    assert_eq!(c.window_width, 1280);
    assert_eq!(c.window_height, 720);
    assert_eq!(c.buffer_elements, 65536);
    assert_eq!(c.queue_priority_percent, 50);
    assert_eq!(c.context_version_major, 4);
    assert_eq!(c.context_version_minor, 5);
    assert!(c.core_profile);
}

#[test]
fn window_title_is_fixed() {
    assert_eq!(window_title(), "LearnOpenGL");
}

#[test]
fn shader_path_is_fixed() {
    assert_eq!(shader_path(), "src/shaders/dense_conv_forward_2d.glsl");
}

#[test]
fn missing_shader_source_is_rejected() {
    let r = check_shader_source(&None);
    assert_eq!(r, Err(InitError::ShaderFileMissing));
    assert!(!InitError::ShaderFileMissing.message().is_empty());
}

#[test]
fn present_shader_source_is_accepted() {
    let source = Some(String::from("#version 450\nvoid main() {}\n"));
    assert_eq!(check_shader_source(&source), Ok(()));
}

#[test]
fn every_error_has_a_nonempty_message() {
    let errors = [
        InitError::NoAdapter,
        InitError::NoComputeQueueFamily,
        InitError::DeviceCreationFailed,
        InitError::BufferAllocationFailed,
        InitError::ShaderFileMissing,
        InitError::ShaderLoadFailed,
        InitError::PipelineBuildFailed,
        InitError::ContextInitFailed,
        InitError::WindowCreationFailed,
    ];
    for e in errors {
        assert!(!e.message().is_empty());
    }
}

#[test]
fn error_messages_are_the_fixed_texts() {
    assert_eq!(InitError::NoAdapter.message(), "no device available");
    assert_eq!(
        InitError::NoComputeQueueFamily.message(),
        "couldn't find a compute queue family"
    );
    assert_eq!(InitError::DeviceCreationFailed.message(), "failed to create device");
    assert_eq!(InitError::BufferAllocationFailed.message(), "failed to create buffer");
    assert_eq!(InitError::ShaderFileMissing.message(), "shader source file is missing");
    assert_eq!(InitError::ShaderLoadFailed.message(), "failed to create shader module");
    assert_eq!(
        InitError::PipelineBuildFailed.message(),
        "failed to create compute pipeline"
    );
    assert_eq!(
        InitError::ContextInitFailed.message(),
        "failed to initialize the windowing context"
    );
    assert_eq!(
        InitError::WindowCreationFailed.message(),
        "Failed to create GLFW window"
    );
}
