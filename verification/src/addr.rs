//! Internet addresses and endpoints as plain values.
use vstd::prelude::*;

verus! {

/// An IPv4 address, as its octets in network order.
#[derive(Debug, Clone, Copy, PartialEq, Eq)]
pub struct Ipv4Address(pub [u8; 4]);

/// An IPv6 address, as its octets in network order.
#[derive(Debug, Clone, Copy, PartialEq, Eq)]
pub struct Ipv6Address(pub [u8; 16]);

/// An address of the network stack: of either version, or not assigned yet.
#[derive(Debug, Clone, Copy, PartialEq, Eq)]
pub enum IpAddress {
    Unspecified,
    Ipv4(Ipv4Address),
    Ipv6(Ipv6Address),
}

/// A block of addresses: every address that agrees with `address` in its first
/// `prefix_len` bits.
#[derive(Debug, Clone, Copy, PartialEq, Eq)]
pub struct IpCidr {
    pub address: IpAddress,
    pub prefix_len: u8,
}

/// An address together with a port.
#[derive(Debug, Clone, Copy, PartialEq, Eq)]
pub struct IpEndpoint {
    pub addr: IpAddress,
    pub port: u16,
}

/// A concrete address, as it is handed to and taken from users of a socket.
#[derive(Debug, Clone, Copy, PartialEq, Eq)]
pub enum IpAddr {
    V4([u8; 4]),
    V6([u8; 16]),
}

/// A concrete address together with a port.
#[derive(Debug, Clone, Copy, PartialEq, Eq)]
pub struct SocketAddr {
    pub ip: IpAddr,
    pub port: u16,
}

impl IpAddress {
    /// Whether the address names no host. An IPv4 address falls into that range by its
    /// first octet alone, an IPv6 address only where every octet is zero.
    pub open spec fn is_unspecified(self) -> bool {
        match self {
            IpAddress::Unspecified => true,
            IpAddress::Ipv4(a) => a.0@[0] == 0,
            IpAddress::Ipv6(a) => forall|i: int| 0 <= i < 16 ==> a.0@[i] == 0,
        }
    }

    /// The all-zero address of the same version as `self`.
    pub open spec fn to_unspecified(self) -> IpAddress {
        match self {
            IpAddress::Unspecified => IpAddress::Unspecified,
            IpAddress::Ipv4(_) => IpAddress::Ipv4(Ipv4Address([0u8, 0, 0, 0])),
            IpAddress::Ipv6(_) => IpAddress::Ipv6(
                Ipv6Address([0u8, 0, 0, 0, 0, 0, 0, 0, 0, 0, 0, 0, 0, 0, 0, 0]),
            ),
        }
    }

    /// The concrete address that `self` stands for; `None` where none is assigned.
    pub open spec fn concrete(self) -> Option<IpAddr> {
        match self {
            IpAddress::Unspecified => None,
            IpAddress::Ipv4(a) => Some(IpAddr::V4(a.0)),
            IpAddress::Ipv6(a) => Some(IpAddr::V6(a.0)),
        }
    }

    pub fn to_concrete(self) -> (r: Option<IpAddr>)
        ensures
            r == self.concrete(),
    {
        match self {
            IpAddress::Ipv4(a) => Some(IpAddr::V4(a.0)),
            IpAddress::Ipv6(a) => Some(IpAddr::V6(a.0)),
            IpAddress::Unspecified => None,
        }
    }
}

impl IpEndpoint {
    /// The endpoint of a socket that is neither bound nor connected.
    pub open spec fn unbound() -> IpEndpoint {
        IpEndpoint { addr: IpAddress::Unspecified, port: 0 }
    }

    /// Whether traffic can be sent to the endpoint.
    pub open spec fn is_specified(self) -> bool {
        !self.addr.is_unspecified() && self.port != 0
    }
}

impl SocketAddr {
    /// The endpoint of the network stack that `self` stands for.
    pub open spec fn endpoint(self) -> IpEndpoint {
        IpEndpoint {
            addr: match self.ip {
                IpAddr::V4(o) => IpAddress::Ipv4(Ipv4Address(o)),
                IpAddr::V6(o) => IpAddress::Ipv6(Ipv6Address(o)),
            },
            port: self.port,
        }
    }

    pub fn to_endpoint(self) -> (r: IpEndpoint)
        ensures
            r == self.endpoint(),
    {
        let addr = match self.ip {
            IpAddr::V4(o) => IpAddress::Ipv4(Ipv4Address(o)),
            IpAddr::V6(o) => IpAddress::Ipv6(Ipv6Address(o)),
        };
        IpEndpoint { addr, port: self.port }
    }
}

/// The endpoint of an address is of the same version, with the same octets in the same order,
/// and has the same port.
pub proof fn lemma_endpoint_octets(a: SocketAddr)
    ensures
        a.endpoint().port == a.port,
        a.ip matches IpAddr::V4(o) ==> {
            &&& a.endpoint().addr matches IpAddress::Ipv4(p)
            &&& p.0@.len() == 4
            &&& forall|i: int| 0 <= i < 4 ==> #[trigger] p.0@[i] == o@[i]
        },
        a.ip matches IpAddr::V6(o) ==> {
            &&& a.endpoint().addr matches IpAddress::Ipv6(p)
            &&& p.0@.len() == 16
            &&& forall|i: int| 0 <= i < 16 ==> #[trigger] p.0@[i] == o@[i]
        },
{
}

/// The concrete address that an assigned one stands for is of the same version, with the same
/// octets in the same order; one that is not assigned stands for none.
pub proof fn lemma_concrete_octets(addr: IpAddress)
    ensures
        addr is Unspecified <==> addr.concrete() is None,
        addr matches IpAddress::Ipv4(p) ==> {
            &&& addr.concrete() matches Some(IpAddr::V4(o))
            &&& o@.len() == 4
            &&& forall|i: int| 0 <= i < 4 ==> #[trigger] o@[i] == p.0@[i]
        },
        addr matches IpAddress::Ipv6(p) ==> {
            &&& addr.concrete() matches Some(IpAddr::V6(o))
            &&& o@.len() == 16
            &&& forall|i: int| 0 <= i < 16 ==> #[trigger] o@[i] == p.0@[i]
        },
{
}

/// The open address of a version has nothing but zeros for octets.
pub proof fn lemma_to_unspecified_octets(addr: IpAddress)
    ensures
        addr is Unspecified ==> addr.to_unspecified() is Unspecified,
        addr is Ipv4 ==> {
            &&& addr.to_unspecified() matches IpAddress::Ipv4(p)
            &&& forall|i: int| 0 <= i < 4 ==> #[trigger] p.0@[i] == 0
        },
        addr is Ipv6 ==> {
            &&& addr.to_unspecified() matches IpAddress::Ipv6(p)
            &&& forall|i: int| 0 <= i < 16 ==> #[trigger] p.0@[i] == 0
        },
{
}

/// An IPv4 endpoint is specified exactly where the first octet of its address and its port are
/// not zero; an IPv6 endpoint where some octet and its port are not; one without an address
/// never is.
pub proof fn lemma_specified(e: IpEndpoint)
    ensures
        e.addr is Unspecified ==> !e.is_specified(),
        e.addr matches IpAddress::Ipv4(p) ==> (e.is_specified() <==> p.0@[0] != 0 && e.port != 0),
        e.addr matches IpAddress::Ipv6(p) ==> (e.is_specified() <==> (exists|i: int|
            0 <= i < 16 && #[trigger] p.0@[i] != 0) && e.port != 0),
{
    match e.addr {
        IpAddress::Ipv6(p) => {
            assert(e.addr.is_unspecified() <==> forall|i: int| 0 <= i < 16 ==> p.0@[i] == 0);
        },
        _ => {},
    }
}

/// An IPv6 address names no host exactly where all of its octets are zero.
pub proof fn lemma_ipv6_unspecified(a: Ipv6Address)
    ensures
        IpAddress::Ipv6(a).is_unspecified() <==> {
            &&& a.0@[0] == 0
            &&& a.0@[1] == 0
            &&& a.0@[2] == 0
            &&& a.0@[3] == 0
            &&& a.0@[4] == 0
            &&& a.0@[5] == 0
            &&& a.0@[6] == 0
            &&& a.0@[7] == 0
            &&& a.0@[8] == 0
            &&& a.0@[9] == 0
            &&& a.0@[10] == 0
            &&& a.0@[11] == 0
            &&& a.0@[12] == 0
            &&& a.0@[13] == 0
            &&& a.0@[14] == 0
            &&& a.0@[15] == 0
        },
{
    match IpAddress::Ipv6(a) {
        IpAddress::Ipv6(b) => {
            assert(IpAddress::Ipv6(b).is_unspecified() <==> forall|i: int|
                0 <= i < 16 ==> b.0@[i] == 0);
        },
        _ => {},
    }
}

/// Turning a concrete address into an endpoint and back loses nothing.
pub proof fn lemma_address_round_trip(a: SocketAddr)
    ensures
        a.endpoint().addr.concrete() == Some(a.ip),
        a.endpoint().port == a.port,
{
}

} // verus!
