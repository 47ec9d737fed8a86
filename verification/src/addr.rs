//! Addresses: IP addresses, socket addresses, and the destination that a
//! client asks to be connected to.

use vstd::prelude::*;
use crate::wire::copy_range;

verus! {

/// The longest domain name that fits the one-byte length of the wire format.
pub const MAX_DOMAIN_LEN: usize = 255;

/// An IP address, held as the number that its octets denote in network order.
#[derive(Clone, Copy, Debug, PartialEq, Eq, Structural)]
pub enum IpAddress {
    V4(u32),
    V6(u128),
}

/// A socket address. An IPv6 address carries its flow information and scope.
#[derive(Clone, Copy, Debug, PartialEq, Eq, Structural)]
#[allow(inconsistent_fields)]
pub enum SocketAddress {
    V4 { ip: u32, port: u16 },
    V6 { ip: u128, port: u16, flowinfo: u32, scope_id: u32 },
}

impl SocketAddress {
    /// The IP address of this socket address.
    pub open spec fn spec_ip(self) -> IpAddress {
        match self {
            SocketAddress::V4 { ip, .. } => IpAddress::V4(ip),
            SocketAddress::V6 { ip, .. } => IpAddress::V6(ip),
        }
    }

    /// The port of this socket address.
    pub open spec fn spec_port(self) -> u16 {
        match self {
            SocketAddress::V4 { port, .. } => port,
            SocketAddress::V6 { port, .. } => port,
        }
    }

    /// This address with its port replaced; everything else is kept.
    pub open spec fn spec_with_port(self, port: u16) -> SocketAddress {
        match self {
            SocketAddress::V4 { ip, .. } => SocketAddress::V4 { ip, port },
            SocketAddress::V6 { ip, flowinfo, scope_id, .. } => SocketAddress::V6 {
                ip,
                port,
                flowinfo,
                scope_id,
            },
        }
    }

    /// The IP address of this socket address.
    #[verifier::when_used_as_spec(spec_ip)]
    pub fn ip(self) -> (ip: IpAddress)
        ensures
            ip == self.spec_ip(),
    {
        match self {
            SocketAddress::V4 { ip, .. } => IpAddress::V4(ip),
            SocketAddress::V6 { ip, .. } => IpAddress::V6(ip),
        }
    }

    /// The port of this socket address.
    #[verifier::when_used_as_spec(spec_port)]
    pub fn port(self) -> (port: u16)
        ensures
            port == self.spec_port(),
    {
        match self {
            SocketAddress::V4 { port, .. } => port,
            SocketAddress::V6 { port, .. } => port,
        }
    }

    /// This address with its port replaced. The flow information and the scope
    /// of an IPv6 address are kept.
    #[verifier::when_used_as_spec(spec_with_port)]
    pub fn with_port(self, port: u16) -> (moved: SocketAddress)
        ensures
            moved == self.spec_with_port(port),
    {
        match self {
            SocketAddress::V4 { ip, .. } => SocketAddress::V4 { ip, port },
            SocketAddress::V6 { ip, flowinfo, scope_id, .. } => SocketAddress::V6 {
                ip,
                port,
                flowinfo,
                scope_id,
            },
        }
    }
}

/// Where a client asks to be connected: a socket address, or a domain name
/// (as the bytes the client sent) with a port.
#[derive(Debug, PartialEq, Eq)]
pub enum Address {
    SocketAddress(SocketAddress),
    DomainName(Vec<u8>, u16),
}

/// The mathematical value of an [`Address`].
pub enum AddressView {
    Socket(SocketAddress),
    Domain(Seq<u8>, u16),
}

impl View for Address {
    type V = AddressView;

    open spec fn view(&self) -> AddressView {
        match self {
            Address::SocketAddress(a) => AddressView::Socket(*a),
            Address::DomainName(name, port) => AddressView::Domain(name@, *port),
        }
    }
}

impl AddressView {
    /// Whether the address can be written in the wire format: a domain name
    /// has at most 255 bytes.
    pub open spec fn encodable(self) -> bool {
        match self {
            AddressView::Socket(_) => true,
            AddressView::Domain(name, _) => name.len() <= MAX_DOMAIN_LEN,
        }
    }

    /// The port of the address.
    pub open spec fn port(self) -> u16 {
        match self {
            AddressView::Socket(a) => a.spec_port(),
            AddressView::Domain(_, port) => port,
        }
    }
}

impl Clone for Address {
    fn clone(&self) -> (copy: Address)
        ensures
            copy@ == self@,
    {
        match self {
            Address::SocketAddress(a) => Address::SocketAddress(*a),
            Address::DomainName(name, port) => {
                let bytes = copy_range(name.as_slice(), 0, name.len());
                assert(bytes@ =~= name@);
                Address::DomainName(bytes, *port)
            },
        }
    }
}

impl Address {
    /// Whether the address can be written in the wire format.
    pub fn is_encodable(&self) -> (ok: bool)
        ensures
            ok == self@.encodable(),
    {
        match self {
            Address::SocketAddress(_) => true,
            Address::DomainName(name, _) => name.len() <= MAX_DOMAIN_LEN,
        }
    }

    /// The port of the address.
    pub fn port(&self) -> (port: u16)
        ensures
            port == self@.port(),
    {
        match self {
            Address::SocketAddress(a) => a.port(),
            Address::DomainName(_, port) => *port,
        }
    }
}

} // verus!
