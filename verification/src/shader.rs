//! The external shader source file. Both backends depend on one shader source
//! at a fixed relative path; the binary reads it and hands the outcome here,
//! and an absent file is a fatal error with a descriptive message before any
//! GPU object that depends on it is created.

use vstd::prelude::*;

use crate::errors::InitError;

verus! {

/// The fixed relative path of the shader source file that both backends read.
pub fn shader_path() -> (p: &'static str)
    ensures
        p@ == "src/shaders/dense_conv_forward_2d.glsl"@,
{
    "src/shaders/dense_conv_forward_2d.glsl"
}

/// Check the outcome of reading the shader source file: an absent file is
/// rejected with `ShaderFileMissing`, a present one is accepted as it is.
pub fn check_shader_source(source: &Option<String>) -> (r: Result<(), InitError>)
    ensures
        source is Some ==> r == Ok::<(), InitError>(()),
        source is None ==> r == Err::<(), InitError>(InitError::ShaderFileMissing),
{
    match source {
        Some(_) => Ok(()),
        None => Err(InitError::ShaderFileMissing),
    }
}

} // verus!
