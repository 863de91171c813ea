//! Network addresses: sequences of protocols, in the style of multiaddr, such
//! as `/ip4/10.0.0.1/tcp/6180/ln-noise-ik/<key>/ln-handshake/0`.

use crate::crypto::X25519PublicKey;
use vstd::prelude::*;

verus! {

/// One protocol of a network address.
#[derive(PartialEq, Eq, Debug)]
pub enum Protocol {
    /// An IPv4 address, as its four octets.
    Ip4([u8; 4]),
    /// An IPv6 address, as its eight 16-bit segments.
    Ip6([u16; 8]),
    /// A DNS name, resolved to any address family.
    Dns(String),
    /// A DNS name, resolved to IPv4 addresses only.
    Dns4(String),
    /// A DNS name, resolved to IPv6 addresses only.
    Dns6(String),
    /// A TCP port.
    Tcp(u16),
    /// An in-memory transport port.
    Memory(u16),
    /// The Noise IK authentication layer, with the peer's static public key.
    NoiseIK(X25519PublicKey),
    /// The LibraNet handshake layer, with its protocol version.
    Handshake(u8),
}

impl Clone for Protocol {
    fn clone(&self) -> (res: Self)
        ensures
            res == *self,
    {
        match self {
            Protocol::Ip4(ip) => Protocol::Ip4(*ip),
            Protocol::Ip6(ip) => Protocol::Ip6(*ip),
            Protocol::Dns(name) => Protocol::Dns(name.clone()),
            Protocol::Dns4(name) => Protocol::Dns4(name.clone()),
            Protocol::Dns6(name) => Protocol::Dns6(name.clone()),
            Protocol::Tcp(port) => Protocol::Tcp(*port),
            Protocol::Memory(port) => Protocol::Memory(*port),
            Protocol::NoiseIK(key) => Protocol::NoiseIK(*key),
            Protocol::Handshake(version) => Protocol::Handshake(*version),
        }
    }
}

/// A network address: the protocols it is made of, outermost first.
#[derive(PartialEq, Eq, Debug)]
pub struct NetworkAddress {
    pub protocols: Vec<Protocol>,
}

impl View for NetworkAddress {
    type V = Seq<Protocol>;

    open spec fn view(&self) -> Seq<Protocol> {
        self.protocols@
    }
}

impl Clone for NetworkAddress {
    fn clone(&self) -> (res: Self)
        ensures
            res@ == self@,
    {
        NetworkAddress { protocols: self.protocols.clone() }
    }
}

/// A protocol that names a host: an IP address or a DNS name.
pub open spec fn is_host_protocol(p: Protocol) -> bool {
    ||| p is Ip4
    ||| p is Ip6
    ||| p is Dns
    ||| p is Dns4
    ||| p is Dns6
}

/// The canonical form of a LibraNet address: a host, a TCP port, the Noise
/// IK layer and the handshake layer, in that order and nothing after.
pub open spec fn is_libranet_protocols(p: Seq<Protocol>) -> bool {
    &&& p.len() == 4
    &&& is_host_protocol(p[0])
    &&& p[1] is Tcp
    &&& p[2] is NoiseIK
    &&& p[3] is Handshake
}

/// Every host protocol may lead a LibraNet address: an IPv4 or IPv6 address
/// or a DNS name of any family, followed by a TCP port, the Noise IK layer
/// with any key and the handshake layer with any version, is accepted.
pub proof fn lemma_libranet_hosts(
    ip4: [u8; 4],
    ip6: [u16; 8],
    name: String,
    port: u16,
    key: X25519PublicKey,
    version: u8,
)
    ensures
        is_libranet_protocols(
            seq![Protocol::Ip4(ip4), Protocol::Tcp(port), Protocol::NoiseIK(key), Protocol::Handshake(version)],
        ),
        is_libranet_protocols(
            seq![Protocol::Ip6(ip6), Protocol::Tcp(port), Protocol::NoiseIK(key), Protocol::Handshake(version)],
        ),
        is_libranet_protocols(
            seq![Protocol::Dns(name), Protocol::Tcp(port), Protocol::NoiseIK(key), Protocol::Handshake(version)],
        ),
        is_libranet_protocols(
            seq![Protocol::Dns4(name), Protocol::Tcp(port), Protocol::NoiseIK(key), Protocol::Handshake(version)],
        ),
        is_libranet_protocols(
            seq![Protocol::Dns6(name), Protocol::Tcp(port), Protocol::NoiseIK(key), Protocol::Handshake(version)],
        ),
{
}

/// A LibraNet address is exactly four protocols, and an in-memory transport
/// never leads one.
pub proof fn lemma_libranet_shape(p: Seq<Protocol>)
    requires
        is_libranet_protocols(p),
    ensures
        p.len() == 4,
        !(p[0] is Memory),
        !(p[0] is Tcp),
        p[1] is Tcp,
        p[2] is NoiseIK,
        p[3] is Handshake,
{
}

fn is_host(p: &Protocol) -> (b: bool)
    ensures
        b == is_host_protocol(*p),
{
    match p {
        Protocol::Ip4(_) | Protocol::Ip6(_) | Protocol::Dns(_) | Protocol::Dns4(_) | Protocol::Dns6(
            _,
        ) => true,
        _ => false,
    }
}

impl NetworkAddress {
    /// The address made of no protocol, whose text form is empty.
    pub fn mock() -> (addr: NetworkAddress)
        ensures
            addr@ == Seq::<Protocol>::empty(),
    {
        NetworkAddress { protocols: Vec::new() }
    }

    /// The address `/ip4/<ip>/tcp/<port>`.
    pub fn ip4_tcp(ip: [u8; 4], port: u16) -> (addr: NetworkAddress)
        ensures
            addr@ == seq![Protocol::Ip4(ip), Protocol::Tcp(port)],
    {
        let mut protocols: Vec<Protocol> = Vec::new();
        protocols.push(Protocol::Ip4(ip));
        protocols.push(Protocol::Tcp(port));
        NetworkAddress { protocols }
    }

    /// Whether the address has no protocol, which is when its text form is
    /// the empty string.
    pub fn is_empty(&self) -> (b: bool)
        ensures
            b == (self@.len() == 0),
    {
        self.protocols.len() == 0
    }

    /// Whether the address has the canonical LibraNet form
    /// `<host>/tcp/<port>/ln-noise-ik/<key>/ln-handshake/<version>`, where the
    /// host is an IPv4 or IPv6 address or a DNS name.
    pub fn is_libranet_addr(&self) -> (b: bool)
        ensures
            b == is_libranet_protocols(self@),
    {
        let p = &self.protocols;
        if p.len() != 4 {
            return false;
        }
        let tcp = match &p[1] {
            Protocol::Tcp(_) => true,
            _ => false,
        };
        let noise = match &p[2] {
            Protocol::NoiseIK(_) => true,
            _ => false,
        };
        let handshake = match &p[3] {
            Protocol::Handshake(_) => true,
            _ => false,
        };
        is_host(&p[0]) && tcp && noise && handshake
    }
}

} // verus!
