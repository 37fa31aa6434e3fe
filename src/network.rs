//! IP networks in CIDR notation, as plain values, and their containment.

use vstd::prelude::*;

verus! {

/// An IPv4 or IPv6 network: an address and a prefix length. An IPv4
/// address is held in the low 32 bits.
#[derive(Debug, Clone, Copy, PartialEq, Eq)]
pub struct Network {
    pub v6: bool,
    pub addr: u128,
    pub prefix_len: u8,
}

impl Network {
    pub open spec fn wf(&self) -> bool {
        if self.v6 {
            self.prefix_len <= 128
        } else {
            self.prefix_len <= 32 && self.addr <= u32::MAX as u128
        }
    }
}

/// The network mask of an IPv4 prefix length: its leading bits set.
pub open spec fn mask32(len: u8) -> u32 {
    if len == 0 {
        0
    } else {
        u32::MAX << ((32 - len) as u32)
    }
}

/// The network mask of an IPv6 prefix length: its leading bits set.
pub open spec fn mask128(len: u8) -> u128 {
    if len == 0 {
        0
    } else {
        u128::MAX << ((128 - len) as u128)
    }
}

/// The first and the last address of a network.
pub open spec fn bounds(n: Network) -> (u128, u128) {
    if n.v6 {
        (n.addr & mask128(n.prefix_len), n.addr | !mask128(n.prefix_len))
    } else {
        let a = n.addr as u32;
        ((a & mask32(n.prefix_len)) as u128, (a | !mask32(n.prefix_len)) as u128)
    }
}

/// Whether network `a` contains network `b`: same family, and the range of
/// `b` lies within the range of `a`.
pub open spec fn net_contains(a: Network, b: Network) -> bool {
    a.v6 == b.v6 && bounds(a).0 <= bounds(b).0 && bounds(b).1 <= bounds(a).1
}

/// The network that a text in CIDR notation denotes, as family, address and
/// prefix length, or `None` where the text is not one.
pub uninterp spec fn parsed_network(s: Seq<char>) -> Option<(bool, u128, u8)>;

/// Relies on `<ipnet::IpNet as FromStr>::from_str`, and on `Ipv4Net` and
/// `Ipv6Net` holding a prefix length of at most 32 and 128.
#[verifier::external_body]
pub(crate) fn parse_network(s: &str) -> (r: Option<Network>)
    ensures
        match r {
            Some(n) => n.wf() && parsed_network(s@) == Some((n.v6, n.addr, n.prefix_len)),
            None => parsed_network(s@) is None,
        },
{
    match s.parse::<ipnet::IpNet>() {
        Ok(ipnet::IpNet::V4(n)) => Some(Network { v6: false, addr: u32::from(n.addr()) as u128, prefix_len: n.prefix_len() }),
        Ok(ipnet::IpNet::V6(n)) => Some(Network { v6: true, addr: u128::from(n.addr()), prefix_len: n.prefix_len() }),
        Err(_) => None,
    }
}

fn bounds_of(n: &Network) -> (r: (u128, u128))
    requires
        n.wf(),
    ensures
        r == bounds(*n),
{
    if n.v6 {
        let m: u128 = if n.prefix_len == 0 { 0 } else { u128::MAX << ((128 - n.prefix_len) as u128) };
        (n.addr & m, n.addr | !m)
    } else {
        let a = n.addr as u32;
        let m: u32 = if n.prefix_len == 0 { 0 } else { u32::MAX << ((32 - n.prefix_len) as u32) };
        ((a & m) as u128, (a | !m) as u128)
    }
}

/// Whether network `a` contains network `b`.
pub fn contains(a: &Network, b: &Network) -> (r: bool)
    requires
        a.wf(),
        b.wf(),
    ensures
        r == net_contains(*a, *b),
{
    if a.v6 != b.v6 {
        return false;
    }
    let (af, al) = bounds_of(a);
    let (bf, bl) = bounds_of(b);
    af <= bf && bl <= al
}

} // verus!
