//! Task-orchestration core of a language-tooling backend.
//!
//! The coordinator receives editor-protocol requests, breaks each into an
//! ordered recipe of steps, dispatches the steps to pluggable workers, and
//! reassembles the replies into responses, while many tasks are in flight and
//! any of them can be cancelled.  The registry of live recipes and every
//! decision the coordinator takes are verified here; mailboxes and execution
//! contexts are left to the embedding program.
//!
//! Alongside the coordinator lives the type checker's deferred-operation
//! queue, the other place the surrounding system parks work to run later:
//! operations wait in a generational arena until an inference variable they
//! are blocked on is unified.

pub mod coordinator;
pub mod laws;
pub mod protocol;
pub mod typeck;
pub mod worker;
