//! Hot-reload lifecycle for a long-running host process.
//!
//! A host keeps one *capsule* of running state alive while the compiled
//! module that drives it is rebuilt and loaded again. This crate holds the
//! rules of that lifecycle: how an entry point is found in a module's symbol
//! table, when a rewritten artifact counts as changed, what a capsule's
//! driver decides at the end of a tick, how a paused capsule is merged with a
//! freshly constructed one, and how the host moves between loading, running,
//! reloading and exiting.
//!
//! Everything here works on plain values. Opening a module, reading a
//! modification time, spawning the watcher and calling through a resolved
//! address are left to the host program.

pub mod capsule;
pub mod flag;
pub mod orchestrator;
pub mod symbols;
pub mod watcher;

