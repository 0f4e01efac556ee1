//! Connections over TCP: messages, and the two sides that meet through the server.
pub mod flow;
pub mod messages;

use vstd::prelude::*;

verus! {

/// In how many milliseconds both sides start to connect once the server has brought them together.
pub const SCHEDULE_CON_MS: u64 = 500;

/// For how many milliseconds a connection request waits for the other side.
pub const CONNECTION_REQUEST_TIMEOUT_MS: u64 = 5000;

/// For how many milliseconds an announcement lasts.
pub const ANNOUNCEMENT_DURATION_MS: u64 = 3000;

} // verus!
