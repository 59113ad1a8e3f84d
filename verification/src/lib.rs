//! Core of a desktop automation runner: launching long-running scripts as
//! tracked, cancellable runs, multiplexing their output into ordered log
//! events, and reporting each run's termination exactly once.
//!
//! The crate holds the logic of that core: the run registry, run-id
//! generation, launch-request validation and command planning, log-line
//! tagging, and the exit-watcher and stop decisions. The surrounding
//! process work (spawning, signalling, reading pipes, the UI shell) is the
//! caller's: it hands plain values in and carries the decisions out.

pub mod text;

pub mod ids;

pub mod registry;

pub mod events;

pub mod watcher;

pub mod control;

pub mod launch;

pub mod labels;

pub mod lifecycle;

pub mod kv;
