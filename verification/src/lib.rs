//! Core of a container build tool: a declarative recipe (an ordered list of
//! build steps) is executed against a mutable build context, guarded by a
//! per-target lock and a content-addressed cache.
//!
//! The library holds the orchestration logic: step resolution and dispatch,
//! the sequential fail-fast pipeline, the fingerprint model used as cache
//! key, and the guard that wraps a build in lock / cache-check / atomic
//! commit. Filesystem and network work is performed by collaborators behind
//! the `StepExecutor` and `LockStore` traits.

pub mod context;
pub mod error;
pub mod executor;
pub mod fingerprint;
pub mod guard;
pub mod kv;
pub mod pipeline;
pub mod recipe;
pub mod resolve;
pub mod step;
pub mod store;
