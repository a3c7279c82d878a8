use vstd::prelude::*;

verus! {

/// One endpoint address: an IP (v4 or v6, widened to one integer) and a port.
#[derive(Clone, Copy, Debug, PartialEq, Eq, Structural)]
pub struct SocketAddress {
    pub ip: u128,
    pub port: u16,
}

/// Addressing metadata of one accepted connection: where it arrived, who sent
/// it, and the original (post-NAT) destination. Immutable once produced.
#[derive(Clone, Copy, Debug, PartialEq, Eq, Structural)]
pub struct Addrs {
    pub local: SocketAddress,
    pub peer: SocketAddress,
    pub target: SocketAddress,
}

impl Addrs {
    pub fn new(local: SocketAddress, peer: SocketAddress, target: SocketAddress) -> (a: Addrs)
        ensures
            a.local == local,
            a.peer == peer,
            a.target == target,
    {
        Addrs { local, peer, target }
    }

    /// The original destination of the connection; its port keys dispatch.
    pub fn target_addr(&self) -> (a: SocketAddress)
        ensures
            a == self.target,
    {
        self.target
    }
}

} // verus!
