//! The legacy render path: the setup machine, the render loop's action trace,
//! and the resource ledger.

use gpu_harness::errors::InitError;
use gpu_harness::legacy::{legacy_advance, LegacyStage, ResourceLedger};
use gpu_harness::render_loop::{run_render_loop, FrameAction};

#[test]
fn legacy_setup_walks_all_stages_in_order() {
    let mut stage = LegacyStage::InitContext;
    stage = legacy_advance(stage, true);
    assert_eq!(stage, LegacyStage::CreateWindow);
    stage = legacy_advance(stage, true);
    assert_eq!(stage, LegacyStage::ReadShaderFile);
    stage = legacy_advance(stage, true);
    assert_eq!(stage, LegacyStage::CompileShader);
    stage = legacy_advance(stage, true);
    assert_eq!(stage, LegacyStage::AllocateObjects);
    stage = legacy_advance(stage, true);
    assert_eq!(stage, LegacyStage::Ready);
    stage = legacy_advance(stage, false);
    assert_eq!(stage, LegacyStage::Ready);
}

#[test]
fn window_creation_failure_is_fatal() {
    let stage = legacy_advance(LegacyStage::CreateWindow, false);
    assert_eq!(stage, LegacyStage::Failed(InitError::WindowCreationFailed));
    assert!(!InitError::WindowCreationFailed.message().is_empty());
}

#[test]
fn legacy_missing_shader_is_fatal_and_permanent() {
    let mut stage = legacy_advance(LegacyStage::ReadShaderFile, false);
    assert_eq!(stage, LegacyStage::Failed(InitError::ShaderFileMissing));
    // No later outcome revives the setup: no object is allocated afterwards.
    stage = legacy_advance(stage, true);
    assert_eq!(stage, LegacyStage::Failed(InitError::ShaderFileMissing));
}

#[test]
fn loop_renders_until_close_then_releases_once() {
    let actions = run_render_loop(&vec![false, false, true]);
    assert_eq!(
        actions,
        vec![
            FrameAction::RenderFrame,
            FrameAction::RenderFrame,
            FrameAction::ReleaseObjects,
        ]
    );
}

#[test]
fn close_on_first_reading_releases_immediately() {
    let actions = run_render_loop(&vec![true]);
    assert_eq!(actions, vec![FrameAction::ReleaseObjects]);
}

#[test]
fn open_window_never_releases() {
    let actions = run_render_loop(&vec![false, false]);
    assert_eq!(
        actions,
        vec![FrameAction::RenderFrame, FrameAction::RenderFrame]
    );
}

#[test]
fn nothing_is_issued_after_the_close() {
    let actions = run_render_loop(&vec![false, true, false, false]);
    assert_eq!(
        actions,
        vec![FrameAction::RenderFrame, FrameAction::ReleaseObjects]
    );
}

#[test]
fn no_readings_no_actions() {
    let actions = run_render_loop(&Vec::new());
    assert_eq!(actions, Vec::<FrameAction>::new());
}

#[test]
fn ledger_releases_every_allocated_object() {
    let mut ledger = ResourceLedger::allocate();
    assert!(ledger.vertex_array_alive);
    assert!(ledger.vertex_buffer_alive);
    assert!(ledger.uniform_buffer_alive);
    ledger.release_all();
    assert!(!ledger.vertex_array_alive);
    assert!(!ledger.vertex_buffer_alive);
    assert!(!ledger.uniform_buffer_alive);
}
