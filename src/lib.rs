//! Host-side session and Real-Time Transfer (RTT) logic for an embedded target
//! reached through a debug probe.
//!
//! The library holds the decisions: which probe to open, how the session moves
//! between detached and attached, where the RTT control block is looked for,
//! which channel accesses are allowed and what each hardware outcome means.
//! The hardware transactions themselves are performed by the caller, which
//! hands each outcome back as a plain value.
pub mod error;
pub mod locate;
pub mod probe;
pub mod session;
