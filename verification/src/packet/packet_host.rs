use vstd::prelude::*;
use crate::address::IpAddress;

verus! {

/// One side of a transport connection: an address and a port.
pub struct Endpoint {
    pub addr: IpAddress,
    pub port: u16,
}

/// A network host identified by an IP address and a port number. Its view is
/// the [`Endpoint`] it names.
#[derive(Clone, Copy, Debug, PartialEq, Eq, Hash, Structural)]
pub struct ReplayPacketHost {
    addr: IpAddress,
    port: u16,
}

impl View for ReplayPacketHost {
    type V = Endpoint;

    closed spec fn view(&self) -> Endpoint {
        Endpoint { addr: self.addr, port: self.port }
    }
}

impl ReplayPacketHost {
    /// The host at `addr` and `port`.
    pub fn new(addr: IpAddress, port: u16) -> (host: ReplayPacketHost)
        ensures
            host@ == (Endpoint { addr, port }),
    {
        Self { addr, port }
    }

    /// The IP address of this host.
    pub fn get_addr(&self) -> (addr: IpAddress)
        ensures
            addr == self@.addr,
    {
        self.addr
    }

    /// The port number of this host.
    pub fn get_port(&self) -> (port: u16)
        ensures
            port == self@.port,
    {
        self.port
    }
}

} // verus!
