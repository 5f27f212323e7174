//! The decisions behind preparing a hosted run.
//!
//! Every operation that waits on a process, a ledger or a lock is a step
//! machine here: its current step says what the host performs next, and the
//! reply of the host moves it to the following step.  The machines perform
//! nothing themselves, so what they decide holds for every reply.
pub mod allocator;
pub mod environment;
pub mod failure;
pub mod guidance;
pub mod history;
pub mod preparation;
pub mod run_id;
pub mod run_map;
pub mod text;
