//! A keyboard remapping core: tracks the pressed state of gate (modifier)
//! keys across a stream of low-level keyboard events, decides whether an
//! incoming key event should be replaced by a synthetic navigation key, and
//! says whether the original event must be suppressed or forwarded.
//!
//! The OS-facing glue (hook installation, the message pump, synthetic input
//! injection) lives outside this library; it feeds events in as plain values
//! and carries the decisions out.

pub mod dispatch;
pub mod keys;
pub mod laws;
pub mod remap;
pub mod state;
pub mod synth;
