//! Network addresses and prefixes as plain integers.

use vstd::prelude::*;

verus! {

/// An IP address of either family, held as its big-endian integer.
#[derive(Clone, Copy, Debug, PartialEq, Eq, Structural, Hash)]
pub enum IpAddress {
    V4(u32),
    V6(u128),
}

/// A network prefix: its network address and the number of leading bits
/// that the network fixes.
#[derive(Clone, Copy, Debug, PartialEq, Eq, Structural, Hash)]
pub struct Prefix {
    pub addr: IpAddress,
    pub len: u8,
}

impl Prefix {
    /// A prefix covers exactly one address when its length is the full
    /// width of its family: 32 bits for IPv4, 128 bits for IPv6.
    pub open spec fn spec_is_host(self) -> bool {
        match self.addr {
            IpAddress::V4(_) => self.len == 32,
            IpAddress::V6(_) => self.len == 128,
        }
    }

    /// Whether this prefix names a single host.
    #[verifier::when_used_as_spec(spec_is_host)]
    pub fn is_host(self) -> (r: bool)
        ensures
            r == self.spec_is_host(),
    {
        match self.addr {
            IpAddress::V4(_) => self.len == 32,
            IpAddress::V6(_) => self.len == 128,
        }
    }

    /// The prefix that covers exactly the address `addr`.
    pub fn host(addr: IpAddress) -> (r: Prefix)
        ensures
            r.addr == addr,
            r.spec_is_host(),
    {
        match addr {
            IpAddress::V4(_) => Prefix { addr, len: 32 },
            IpAddress::V6(_) => Prefix { addr, len: 128 },
        }
    }
}

} // verus!
