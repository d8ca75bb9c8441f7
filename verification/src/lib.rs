//! A minimal harness for bringing up GPU compute and rendering through two
//! alternative backends: an explicit graphics/compute API and a legacy
//! immediate-context API. The library holds the decision logic — hardware
//! capability probing results, backend selection, queue-family selection,
//! buffer initialization, and the fatal-step setup machines of both backends —
//! while the binary performs the actual driver and windowing calls.

pub mod backend;
pub mod config;
pub mod errors;
pub mod explicit;
pub mod legacy;
pub mod probe;
pub mod render_loop;
pub mod shader;

pub use backend::Backend;
pub use config::Config;
pub use errors::InitError;
