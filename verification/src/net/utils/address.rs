//! Addresses: picking a resolved socket address and encoding IP addresses
//! as bytes.

use vstd::prelude::*;
use crate::utils::error::RuntimeError;

verus! {

/// Description carried by the error of `get_socket_address`.
pub open spec fn no_address_description() -> Seq<char> {
    "unable get socket address"@
}

/// The address that a resolution yields: the first of the resolved
/// addresses, if the resolution succeeded and found any.
pub open spec fn first_resolved<A>(resolved: Option<Vec<A>>) -> Option<A> {
    match resolved {
        Some(addrs) => if addrs@.len() > 0 {
            Some(addrs@[0])
        } else {
            None
        },
        None => None,
    }
}

/// Get socket address from the outcome of a resolution: `None` if the
/// resolution itself failed, otherwise the addresses it found, in order.
pub fn get_socket_address<A>(resolved: Option<Vec<A>>) -> (res: Result<A, RuntimeError>)
    ensures
        match res {
            Ok(addr) => first_resolved(resolved) == Some(addr),
            Err(err) => first_resolved(resolved) is None && err@ == no_address_description(),
        },
{
    match resolved {
        Some(addrs) => {
            let mut addrs = addrs;
            if addrs.len() > 0 {
                Ok(addrs.swap_remove(0))
            } else {
                Err(RuntimeError::new("unable get socket address"))
            }
        },
        None => Err(RuntimeError::new("unable get socket address")),
    }
}

/// An IPv4 address: four octets, most significant first.
#[derive(Debug, Clone, Copy, PartialEq, Eq)]
pub struct Ipv4Addr {
    octets: [u8; 4],
}

/// An IPv6 address: eight 16-bit segments, most significant first.
#[derive(Debug, Clone, Copy, PartialEq, Eq)]
pub struct Ipv6Addr {
    segments: [u16; 8],
}

/// An IP address, either IPv4 or IPv6.
#[derive(Debug, Clone, Copy, PartialEq, Eq)]
pub enum IpAddr {
    /// An IPv4 address.
    V4(Ipv4Addr),
    /// An IPv6 address.
    V6(Ipv6Addr),
}

impl View for Ipv4Addr {
    type V = Seq<u8>;

    /// The four octets.
    closed spec fn view(&self) -> Seq<u8> {
        self.octets@
    }
}

impl View for Ipv6Addr {
    type V = Seq<u16>;

    /// The eight segments.
    closed spec fn view(&self) -> Seq<u16> {
        self.segments@
    }
}

impl Ipv4Addr {
    /// Create an address from its four octets.
    pub fn new(octets: [u8; 4]) -> (res: Ipv4Addr)
        ensures
            res@ == octets@,
    {
        Ipv4Addr { octets }
    }

    /// The four octets that make up this address.
    pub fn octets(&self) -> (res: [u8; 4])
        ensures
            res@ == self@,
            self@.len() == 4,
    {
        self.octets
    }
}

impl Ipv6Addr {
    /// Create an address from its eight segments.
    pub fn new(segments: [u16; 8]) -> (res: Ipv6Addr)
        ensures
            res@ == segments@,
    {
        Ipv6Addr { segments }
    }

    /// The eight segments that make up this address.
    pub fn segments(&self) -> (res: [u16; 8])
        ensures
            res@ == self@,
            self@.len() == 8,
    {
        self.segments
    }
}

/// Left-aligned bytes of an IPv4 address: the octets, then zeros.
pub open spec fn ipv4_bytes(octets: Seq<u8>) -> Seq<u8> {
    Seq::new(
        16,
        |i: int|
            if i < octets.len() {
                octets[i]
            } else {
                0u8
            },
    )
}

/// Bytes of an IPv6 address: each segment as two bytes, the high one first.
pub open spec fn ipv6_bytes(segments: Seq<u16>) -> Seq<u8> {
    Seq::new(
        16,
        |i: int|
            if i % 2 == 0 {
                (segments[i / 2] / 256) as u8
            } else {
                (segments[i / 2] % 256) as u8
            },
    )
}

/// IpAddr extension.
pub trait IpAddrEx {
    /// The byte representation that `bytes` returns.
    spec fn bytes_of(&self) -> Seq<u8>;

    /// The version that `version` returns.
    spec fn version_of(&self) -> u8;

    /// Get left-aligned byte representation of the IP address.
    fn bytes(&self) -> (res: [u8; 16])
        ensures
            res@ == self.bytes_of(),
    ;

    /// Get IP address version.
    fn version(&self) -> (res: u8)
        ensures
            res == self.version_of(),
    ;
}

impl IpAddrEx for IpAddr {
    open spec fn bytes_of(&self) -> Seq<u8> {
        match self {
            IpAddr::V4(ip_addr) => ip_addr.bytes_of(),
            IpAddr::V6(ip_addr) => ip_addr.bytes_of(),
        }
    }

    open spec fn version_of(&self) -> u8 {
        match self {
            IpAddr::V4(ip_addr) => ip_addr.version_of(),
            IpAddr::V6(ip_addr) => ip_addr.version_of(),
        }
    }

    fn bytes(&self) -> (res: [u8; 16]) {
        match self {
            IpAddr::V4(ip_addr) => ip_addr.bytes(),
            IpAddr::V6(ip_addr) => ip_addr.bytes(),
        }
    }

    fn version(&self) -> (res: u8) {
        match self {
            IpAddr::V4(ip_addr) => ip_addr.version(),
            IpAddr::V6(ip_addr) => ip_addr.version(),
        }
    }
}

impl IpAddrEx for Ipv4Addr {
    open spec fn bytes_of(&self) -> Seq<u8> {
        ipv4_bytes(self@)
    }

    open spec fn version_of(&self) -> u8 {
        4
    }

    fn bytes(&self) -> (res: [u8; 16]) {
        let octets = self.octets();
        let mut res: [u8; 16] = [0, 0, 0, 0, 0, 0, 0, 0, 0, 0, 0, 0, 0, 0, 0, 0];
        let mut i: usize = 0;
        while i < 4
            invariant
                i <= 4,
                octets@ == self@,
                forall|j: int| 0 <= j < i ==> res@[j] == octets@[j],
                forall|j: int| i <= j < 16 ==> res@[j] == 0u8,
            decreases 4 - i,
        {
            res[i] = octets[i];
            i += 1;
        }
        assert(res@ =~= ipv4_bytes(self@));
        res
    }

    fn version(&self) -> (res: u8) {
        4
    }
}

impl IpAddrEx for Ipv6Addr {
    open spec fn bytes_of(&self) -> Seq<u8> {
        ipv6_bytes(self@)
    }

    open spec fn version_of(&self) -> u8 {
        6
    }

    fn bytes(&self) -> (res: [u8; 16]) {
        let segments = self.segments();
        let mut res: [u8; 16] = [0, 0, 0, 0, 0, 0, 0, 0, 0, 0, 0, 0, 0, 0, 0, 0];
        let mut i: usize = 0;
        while i < 8
            invariant
                i <= 8,
                segments@ == self@,
                forall|j: int| 0 <= j < 2 * i ==> res@[j] == ipv6_bytes(self@)[j],
            decreases 8 - i,
        {
            let segment = segments[i];
            let j = 2 * i;
            assert((segment >> 8) == segment / 256 && (segment >> 8) < 256 && (segment & 0xff)
                == segment % 256) by (bit_vector);
            res[j] = (segment >> 8) as u8;
            res[j + 1] = (segment & 0xff) as u8;
            i += 1;
        }
        assert(res@ =~= ipv6_bytes(self@));
        res
    }

    fn version(&self) -> (res: u8) {
        6
    }
}

/// The byte representation is sixteen bytes long; an IPv4 address fills the
/// first four and leaves the rest zero, and each IPv6 segment is the value of
/// its two bytes read with the high byte first.
pub proof fn lemma_bytes_layout(octets: Seq<u8>, segments: Seq<u16>)
    requires
        octets.len() == 4,
        segments.len() == 8,
    ensures
        ipv4_bytes(octets).len() == 16,
        ipv4_bytes(octets).subrange(0, 4) == octets,
        forall|i: int| 4 <= i < 16 ==> ipv4_bytes(octets)[i] == 0,
        ipv6_bytes(segments).len() == 16,
        forall|k: int|
            0 <= k < 8 ==> #[trigger] segments[k] == 256 * ipv6_bytes(segments)[2 * k]
                + ipv6_bytes(segments)[2 * k + 1],
{
    assert(ipv4_bytes(octets).subrange(0, 4) =~= octets);
    assert forall|k: int| 0 <= k < 8 implies #[trigger] segments[k] == 256 * ipv6_bytes(
        segments,
    )[2 * k] + ipv6_bytes(segments)[2 * k + 1] by {
        assert((2 * k) / 2 == k && (2 * k) % 2 == 0);
        assert((2 * k + 1) / 2 == k && (2 * k + 1) % 2 == 1);
    }
}

} // verus!
