//! Connections over UDP: messages, peers, hole punching and the identity check of QUIC.
pub mod client;
pub mod hole_punch;
pub mod messages;
pub mod notices;
pub mod peer_state;
pub mod quic;
