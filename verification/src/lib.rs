//! Verified core of a DDC/CI monitor brightness controller.
//!
//! The library covers the logic of brightness control: the two-byte VCP value
//! codec, the registry of monitors built at enumeration time, and the
//! state machines that a brightness read and a brightness write walk through
//! between native display-control calls. The native library itself (and any
//! UI around it) performs the blocking I/O and feeds each call's outcome back
//! into these machines as plain values.

pub mod reader;
pub mod registry;
pub mod vcp;
pub mod writer;
