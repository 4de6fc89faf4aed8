//! Supervision logic for a tunnelling proxy engine: its log lines are
//! classified, the line that announces the tunnel adapter is detected, and the
//! DNS override that goes with the tunnel is requested and later withdrawn.
//!
//! Everything here is a function from plain values to plain values. Spawning
//! the engine, reading its output and running commands is left to the caller.

pub mod classifier;
pub mod dns;
pub mod interface;
pub mod level;
pub mod supervisor;
pub mod text;
pub mod trace;
pub mod trigger;
