//! Verified core of a PTY-backed interactive-process supervisor.
//!
//! The library holds the decision logic of the supervisor: terminal-size
//! resolution, spawn-request validation and planning, the per-event decisions
//! of the output-reader and input-writer loops, and the write-once exit
//! record. The host wires these decisions to the operating system (the PTY
//! device, the child process, the blocking reads and writes) and to the
//! channels that carry chunks and exit codes between tasks.

pub mod footer;
pub mod lifecycle;
pub mod size;
pub mod suggestions;
pub mod spawn;
pub mod streams;
pub mod userinput;
