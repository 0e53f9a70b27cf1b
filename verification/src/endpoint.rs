//! Where the benchmark servers listen and where the clients bind.

use vstd::prelude::*;

verus! {

/// The IPv4 loopback address 127.0.0.1, as a big-endian integer.
pub const LOOPBACK: u32 = 0x7f00_0001;

/// Port of the TLS-over-TCP echo service.
pub const TCP_PORT: u16 = 8080;

/// Port of the QUIC echo service.
pub const QUIC_PORT: u16 = 8081;

/// Port of the raw UDP echo service.
pub const UDP_PORT: u16 = 8082;

/// An IPv4 socket address: `ip` is the address in big-endian order.
#[derive(Clone, Copy, Debug, PartialEq, Eq, Structural)]
pub struct Endpoint {
    pub ip: u32,
    pub port: u16,
}

/// The three echo services that the server runs.
#[derive(Clone, Copy, Debug, PartialEq, Eq, Structural)]
pub enum Service {
    Tcp,
    Quic,
    Udp,
}

/// The port on which `service` listens.
pub open spec fn service_port(service: Service) -> u16 {
    match service {
        Service::Tcp => TCP_PORT,
        Service::Quic => QUIC_PORT,
        Service::Udp => UDP_PORT,
    }
}

/// The address at which `service` listens (and to which clients connect).
pub open spec fn service_endpoint(service: Service) -> Endpoint {
    Endpoint { ip: LOOPBACK, port: service_port(service) }
}

/// The address a datagram or QUIC client binds to: loopback, any free port.
pub open spec fn client_bind_spec() -> Endpoint {
    Endpoint { ip: LOOPBACK, port: 0 }
}

/// The loopback address on which `service` listens.
pub fn server_endpoint(service: Service) -> (ep: Endpoint)
    ensures
        ep == service_endpoint(service),
{
    let port = match service {
        Service::Tcp => TCP_PORT,
        Service::Quic => QUIC_PORT,
        Service::Udp => UDP_PORT,
    };
    Endpoint { ip: LOOPBACK, port }
}

/// The loopback address with port 0, letting the system pick the client port.
pub fn client_bind_endpoint() -> (ep: Endpoint)
    ensures
        ep == client_bind_spec(),
{
    Endpoint { ip: LOOPBACK, port: 0 }
}

} // verus!
