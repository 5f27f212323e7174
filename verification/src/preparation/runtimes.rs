//! What runs have for a runtime.
use crate::preparation::task::PreparationTask;
use vstd::prelude::*;

verus! {

/// What a run has for a runtime: a preparation, with the claim on the run, or a
/// graph that runs.
#[derive(Debug, PartialEq, Eq)]
pub enum RuntimeSlot<T, G> {
    /// A preparation that is under way or has come to nothing.
    Preparing(T),
    /// A graph that runs.
    Running(G),
}

/// The cleanup that a run needs which someone submits again.
#[derive(Clone, Copy, Debug, PartialEq, Eq, Structural)]
pub enum Reconciliation {
    /// None: its preparation is under way, or its graph runs.
    Nothing,
    /// Clean up, by force or not.
    Cleanup { force: bool },
}

/// What is due for a run with this runtime.
pub open spec fn reconciled<K, G>(runtime: RuntimeSlot<&PreparationTask<K>, G>) -> Reconciliation {
    match runtime {
        RuntimeSlot::Preparing(task) => if task.finished {
            Reconciliation::Cleanup { force: false }
        } else {
            Reconciliation::Nothing
        },
        RuntimeSlot::Running(_) => Reconciliation::Nothing,
    }
}

/// What is due for a run that someone submits again: a cleanup without force,
/// if its preparation is over and it still has no graph.
pub fn reconcile_owned_preparation<K, G>(runtime: &RuntimeSlot<&PreparationTask<K>, G>) -> (due:
    Reconciliation)
    ensures
        due == reconciled(*runtime),
{
    match runtime {
        RuntimeSlot::Preparing(task) => if task.is_finished() {
            Reconciliation::Cleanup { force: false }
        } else {
            Reconciliation::Nothing
        },
        RuntimeSlot::Running(_) => Reconciliation::Nothing,
    }
}

/// Only a preparation that is over is cleaned up, and never by force; one under
/// way and a graph that runs are left alone.
pub proof fn only_finished_preparations_are_reconciled<K, G>(task: &PreparationTask<K>, graph: G)
    ensures
        task.finished ==> reconciled(RuntimeSlot::<&PreparationTask<K>, G>::Preparing(task))
            == (Reconciliation::Cleanup { force: false }),
        !task.finished ==> reconciled(RuntimeSlot::<&PreparationTask<K>, G>::Preparing(task))
            == Reconciliation::Nothing,
        reconciled(RuntimeSlot::<&PreparationTask<K>, G>::Running(graph))
            == Reconciliation::Nothing,
{
}

} // verus!
