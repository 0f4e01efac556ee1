//! The configuration of the server.
use vstd::prelude::*;

verus! {

/// The port that a server listens on unless it is told otherwise.
pub const DEFAULT_PORT: u16 = 47002;

/// Which ports the server listens on.
#[derive(Debug, Clone, Copy, PartialEq, Eq, Structural)]
pub struct ServerConfig {
    pub tcp_handler_port: Option<u16>,
    pub udp_handler_port: Option<u16>,
}

impl ServerConfig {
    /// A server for UDP clients.
    pub fn udp_only() -> (r: Self)
        ensures
            r.udp_handler_port == Some(47002u16),
            r.tcp_handler_port is None,
    {
        ServerConfig { udp_handler_port: Some(DEFAULT_PORT), tcp_handler_port: None }
    }

    /// A server for TCP clients.
    pub fn tcp_only() -> (r: Self)
        ensures
            r.udp_handler_port is None,
            r.tcp_handler_port == Some(47002u16),
    {
        ServerConfig { udp_handler_port: None, tcp_handler_port: Some(DEFAULT_PORT) }
    }
}

impl Default for ServerConfig {
    /// A server for UDP and TCP clients.
    fn default() -> (r: Self)
        ensures
            r.udp_handler_port == Some(47002u16),
            r.tcp_handler_port == Some(47002u16),
    {
        ServerConfig { tcp_handler_port: Some(DEFAULT_PORT), udp_handler_port: Some(DEFAULT_PORT) }
    }
}

/// Each kind of server listens for its clients on port 47002, and for no others.
pub proof fn servers_listen_on_one_port(udp: ServerConfig, tcp: ServerConfig, both: ServerConfig)
    requires
        call_ensures(ServerConfig::udp_only, (), udp),
        call_ensures(ServerConfig::tcp_only, (), tcp),
        call_ensures(ServerConfig::default, (), both),
    ensures
        udp.udp_handler_port == Some(47002u16) && udp.tcp_handler_port is None,
        tcp.tcp_handler_port == Some(47002u16) && tcp.udp_handler_port is None,
        both.udp_handler_port == udp.udp_handler_port,
        both.tcp_handler_port == tcp.tcp_handler_port,
{
}

} // verus!
