//! A task lifecycle engine: a polymorphic task capability, a registry that
//! maps monotonically assigned identities to tasks and routes lifecycle
//! calls, and a reference timed task whose state machine reconciles a
//! background timed operation with externally requested pause, resume and
//! cancel transitions.
//!
//! Every operation is driven by an explicit clock reading in milliseconds
//! (`now_ms`), so the whole engine is a deterministic function of its inputs
//! and is verified as such; the surrounding program supplies real clock
//! readings and performs the actual waiting.

pub mod sleep_task;
pub mod task_queue;
