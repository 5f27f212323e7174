//! Hooks that prepare the environment of a run.
pub mod directories;
pub mod hook;
pub mod hook_laws;
pub mod output;
pub mod output_laws;
pub mod process_laws;
pub mod processes;
