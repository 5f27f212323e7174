//! A preparation owns acceptance, cancellation and cleanup of a run until the
//! run is handed over to its graph.
pub mod capsule;
pub mod cleanup;
pub mod cleanup_laws;
pub mod laws;
pub mod owner;
pub mod prepare;
pub mod progress;
pub mod runtimes;
pub mod step_laws;
pub mod task;
