use vstd::prelude::*;

verus! {

/// An IP address, held as its numeric value.
#[derive(Debug, Clone, Copy, PartialEq, Eq, Structural, Hash)]
pub enum IpAddress {
    V4(u32),
    V6(u128),
}

/// A peer address: an IP address and a UDP port. Two hosts are equal when
/// both parts are.
#[derive(Debug, Clone, Copy, PartialEq, Eq, Structural, Hash)]
pub struct Host {
    pub ip: IpAddress,
    pub port: u16,
}

impl Host {
    pub fn from_parts(ip: IpAddress, port: u16) -> (r: Host)
        ensures
            r.ip == ip,
            r.port == port,
    {
        Host { ip, port }
    }

    pub fn ip(&self) -> (r: IpAddress)
        ensures
            r == self.ip,
    {
        self.ip
    }

    pub fn port(&self) -> (r: u16)
        ensures
            r == self.port,
    {
        self.port
    }
}

} // verus!
