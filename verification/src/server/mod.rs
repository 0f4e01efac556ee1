//! The rendezvous server.
pub mod state;
pub mod tcp;
pub mod udp;
