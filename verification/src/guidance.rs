//! What the runtime tells the agent of a node about the shared workspace.
use vstd::prelude::*;

verus! {

/// What a node is expected to respond with.
#[derive(Clone, Copy, Debug, PartialEq, Eq, Structural)]
pub enum NodeResponseContract {
    Verifier,
    Worker,
}

/// The guidance of a node that verifies.
pub const VERIFIER_GUIDANCE: &'static str =
    "Runtime-owned verifier guidance:\n\
     Verify the prepared shared checkout. Do not modify reviewed material or implement repairs. \
     Run checks and create artifacts. Do not run setup or dependency-install commands that \
     rewrite the checkout; other nodes may run concurrently. A missing declared dependency \
     is an environment blocker: report the missing dependency and command evidence; do not \
     request unrelated code repairs.\n";

/// The guidance of a node that works.
pub const WORKER_GUIDANCE: &'static str =
    "Runtime-owned workspace setup guidance:\n\
     Before returning, follow repository setup and install manifest/lockfile dependencies in \
     the checkout; do not use an ad hoc unpinned list. Wait for setup to finish and check exit \
     status. Leave ignored dependencies there. Put standalone tools under an executable user \
     path: use `$ZEROSHOT_TOOLS/bin` when provided (shared by all nodes), otherwise \
     `$HOME/.local/bin`. Do not install tools in `/tmp` (possibly `noexec`).\n";

pub fn runtime_guidance(response: &NodeResponseContract) -> (guidance: &'static str)
    ensures
        guidance@ == (match response {
            NodeResponseContract::Verifier => VERIFIER_GUIDANCE@,
            NodeResponseContract::Worker => WORKER_GUIDANCE@,
        }),
{
    match response {
        NodeResponseContract::Verifier => VERIFIER_GUIDANCE,
        NodeResponseContract::Worker => WORKER_GUIDANCE,
    }
}

} // verus!
