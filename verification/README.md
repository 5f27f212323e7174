# zeroshot

The decisions behind preparing a hosted run, written in Verus and proved: which hook runs when
and how its output reaches the log, which processes are still owed a cleanup, whose turn it is to
allocate, how a workspace goes over to a successor, and when a run that never started gets its
result.

- `src/` is the verified library. Whatever waits on a process, a ledger or a lock is a step
  machine: its step says what the host does next, and the reply moves it on. A reply that does not
  answer the step changes nothing.
  - `text`, `run_id`, `run_map`, `failure`, `guidance`: the vocabulary.
  - `history`: what is found among the replies that a step machine has taken.
  - `environment`: hooks, their output, their processes, and their directories.
  - `allocator`: turns, handoffs of retained workspaces, and recovery documents.
  - `preparation`: allocation of a capsule, handoff to the graph, the lease on the run, and cleanup.
- `app/` performs the steps on Tokio. The ledger, the allocator and the operating system are traits
  there.
- `tests/` runs the library.

Two things are taken on trust: that `String::push` appends a character, and that
`String::from_utf8_lossy` is a function of its bytes that decodes valid UTF-8 as it is.
