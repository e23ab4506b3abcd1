//! Verified core of a single-backend reverse proxy.
//!
//! The library holds the proxy's decision logic: classifying inbound
//! requests as plain HTTP or WebSocket upgrades, rewriting the target
//! authority while keeping everything else intact, injecting the two
//! cross-origin-isolation response headers, validating upgrade
//! handshakes, and driving the per-direction frame relay state machine.
//! The surrounding process performs the network I/O and feeds the
//! resulting events into these functions.

pub mod bytes;
pub mod headers;
pub mod tokens;
pub mod classify;
pub mod inject;
pub mod forward;
pub mod responses;
pub mod tunnel;
pub mod relay;
