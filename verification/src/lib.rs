//! A validation host for CLAP audio plugins: the verified core.
//!
//! This crate holds the logic that a plugin validator is built around: the
//! plugin lifecycle state machine, the transport clock with its fixed-point
//! musical time, audio-buffer bookkeeping, the time-sorted event queue, the
//! thread-affinity audit, the deterministic random source that fuzz tests
//! draw from, and the rules that turn test outcomes into statuses and exit
//! codes. The binary front end (argument parsing, dynamic loading of plugin
//! bundles, process isolation) lives outside and consults this crate for
//! every decision.

pub mod buffers;
pub mod checks;
pub mod events;
pub mod extensions;
pub mod lifecycle;
pub mod process;
pub mod prng;
pub mod runner;
pub mod threads;
pub mod transport;
