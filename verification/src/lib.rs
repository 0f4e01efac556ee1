//! Peer-to-peer connections through NAT, with the help of a rendezvous server.
//!
//! Every rule of the protocol lives here as verified code: message formats, the server's matching
//! of connection requests, the client's view of its peers, hole punching, interface choice and
//! the check of a peer's certificate. Sockets, clocks and tasks belong to the application.
pub mod clock;
pub mod config;
pub mod interfaces;
pub mod keys;
pub mod meeting;
pub mod net;
pub mod outside;
pub mod server;
pub mod tcp;
pub mod text;
pub mod time;
pub mod udp;
pub mod wire;
