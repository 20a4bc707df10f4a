//! What the listener reads of a remote address: the host it names, whether
//! that host is only reachable in a test setting, and whether a CIDR block
//! holds it.

use cidr::{Ipv4Cidr, Ipv6Cidr};
use vstd::prelude::*;

verus! {

/// The bits of an IPv4 address that a prefix of `prefix_len` bits leaves to the host.
pub open spec fn v4_host_mask(prefix_len: u8) -> u32 {
    if prefix_len < 32 {
        0xffff_ffffu32 >> prefix_len
    } else {
        0u32
    }
}

/// The bits of an IPv6 address that a prefix of `prefix_len` bits leaves to the host.
pub open spec fn v6_host_mask(prefix_len: u8) -> u128 {
    if prefix_len < 128 {
        0xffff_ffff_ffff_ffff_ffff_ffff_ffff_ffffu128 >> prefix_len
    } else {
        0u128
    }
}

/// Whether `network/prefix_len` is an IPv4 block: the prefix fits the address
/// and the host part of the network address is zero.
pub open spec fn v4_block_is_valid(network: u32, prefix_len: u8) -> bool {
    prefix_len <= 32 && network & v4_host_mask(prefix_len) == 0
}

/// Whether `network/prefix_len` is an IPv6 block.
pub open spec fn v6_block_is_valid(network: u128, prefix_len: u8) -> bool {
    prefix_len <= 128 && network & v6_host_mask(prefix_len) == 0
}

/// Whether the IPv4 block `network/prefix_len` holds `ip`: the two agree on
/// the network bits.
pub open spec fn v4_block_contains(network: u32, prefix_len: u8, ip: u32) -> bool {
    network & !v4_host_mask(prefix_len) == ip & !v4_host_mask(prefix_len)
}

/// Whether the IPv6 block `network/prefix_len` holds `ip`.
pub open spec fn v6_block_contains(network: u128, prefix_len: u8, ip: u128) -> bool {
    network & !v6_host_mask(prefix_len) == ip & !v6_host_mask(prefix_len)
}

/// Asks `cidr::Ipv4Cidr::new` whether it accepts the block. It refuses a
/// prefix longer than 32 bits and a network address with host bits set.
#[verifier::external_body]
fn cidr_accepts_v4(network: u32, prefix_len: u8) -> (accepted: bool)
    ensures
        accepted == v4_block_is_valid(network, prefix_len),
{
    Ipv4Cidr::new(network.into(), prefix_len).is_ok()
}

/// Asks `cidr::Ipv6Cidr::new` whether it accepts the block.
#[verifier::external_body]
fn cidr_accepts_v6(network: u128, prefix_len: u8) -> (accepted: bool)
    ensures
        accepted == v6_block_is_valid(network, prefix_len),
{
    Ipv6Cidr::new(network.into(), prefix_len).is_ok()
}

/// Calls `cidr::Ipv4Cidr::new` and, where that accepts the block,
/// `cidr::Ipv4Cidr::contains`, which compares the network bits of the
/// block's address and of `ip`. What `new` refuses holds nothing.
#[verifier::external_body]
fn cidr_contains_v4(network: u32, prefix_len: u8, ip: u32) -> (inside: bool)
    ensures
        inside == (v4_block_is_valid(network, prefix_len) && v4_block_contains(
            network,
            prefix_len,
            ip,
        )),
{
    match Ipv4Cidr::new(network.into(), prefix_len) {
        Ok(block) => block.contains(&ip.into()),
        Err(_) => false,
    }
}

/// Calls `cidr::Ipv6Cidr::new` and, where that accepts the block,
/// `cidr::Ipv6Cidr::contains`. What `new` refuses holds nothing.
#[verifier::external_body]
fn cidr_contains_v6(network: u128, prefix_len: u8, ip: u128) -> (inside: bool)
    ensures
        inside == (v6_block_is_valid(network, prefix_len) && v6_block_contains(
            network,
            prefix_len,
            ip,
        )),
{
    match Ipv6Cidr::new(network.into(), prefix_len) {
        Ok(block) => block.contains(&ip.into()),
        Err(_) => false,
    }
}

/// The host that the first component of a remote address names.
#[derive(Clone, Copy, Debug, PartialEq, Eq, Structural)]
pub enum RemoteHost {
    /// An IPv4 address, as the number its four bytes spell out.
    Ip4(u32),
    /// An IPv6 address, as the number its sixteen bytes spell out.
    Ip6(u128),
    /// A port of the in-memory transport, which only exists inside one process.
    Memory(u64),
    /// Anything else: a name to resolve, an onion service.
    Other,
}

/// A block of IP addresses in CIDR notation.
#[derive(Clone, Copy, Debug, PartialEq, Eq, Structural)]
pub enum IpCidr {
    /// Every IPv4 and IPv6 address.
    Any,
    V4 { network: u32, prefix_len: u8 },
    V6 { network: u128, prefix_len: u8 },
}

impl IpCidr {
    /// The block is one that CIDR notation can write.
    pub open spec fn wf(self) -> bool {
        match self {
            IpCidr::Any => true,
            IpCidr::V4 { network, prefix_len } => v4_block_is_valid(network, prefix_len),
            IpCidr::V6 { network, prefix_len } => v6_block_is_valid(network, prefix_len),
        }
    }

    /// Whether the block holds the host. A block of one family holds no
    /// address of the other, no block holds a host that is not an IP
    /// address, and what is no block of CIDR notation holds nothing.
    pub open spec fn holds(self, host: RemoteHost) -> bool {
        match (self, host) {
            (IpCidr::Any, RemoteHost::Ip4(_)) => true,
            (IpCidr::Any, RemoteHost::Ip6(_)) => true,
            (IpCidr::V4 { network, prefix_len }, RemoteHost::Ip4(ip)) => v4_block_is_valid(
                network,
                prefix_len,
            ) && v4_block_contains(network, prefix_len, ip),
            (IpCidr::V6 { network, prefix_len }, RemoteHost::Ip6(ip)) => v6_block_is_valid(
                network,
                prefix_len,
            ) && v6_block_contains(network, prefix_len, ip),
            _ => false,
        }
    }

    /// Whether the block is one that CIDR notation can write.
    pub fn is_valid(&self) -> (valid: bool)
        ensures
            valid == self.wf(),
    {
        match *self {
            IpCidr::Any => true,
            IpCidr::V4 { network, prefix_len } => cidr_accepts_v4(network, prefix_len),
            IpCidr::V6 { network, prefix_len } => cidr_accepts_v6(network, prefix_len),
        }
    }

    /// The IPv4 block `network/prefix_len`, or nothing where that is no block.
    pub fn new_v4(network: u32, prefix_len: u8) -> (block: Option<IpCidr>)
        ensures
            block == if v4_block_is_valid(network, prefix_len) {
                Some(IpCidr::V4 { network, prefix_len })
            } else {
                None
            },
    {
        if cidr_accepts_v4(network, prefix_len) {
            Some(IpCidr::V4 { network, prefix_len })
        } else {
            None
        }
    }

    /// The IPv6 block `network/prefix_len`, or nothing where that is no block.
    pub fn new_v6(network: u128, prefix_len: u8) -> (block: Option<IpCidr>)
        ensures
            block == if v6_block_is_valid(network, prefix_len) {
                Some(IpCidr::V6 { network, prefix_len })
            } else {
                None
            },
    {
        if cidr_accepts_v6(network, prefix_len) {
            Some(IpCidr::V6 { network, prefix_len })
        } else {
            None
        }
    }

    /// The block that holds the one IPv4 address `ip`.
    pub fn host_v4(ip: u32) -> (block: IpCidr)
        ensures
            block == (IpCidr::V4 { network: ip, prefix_len: 32 }),
            block.wf(),
    {
        assert(ip & 0u32 == 0) by (bit_vector);
        IpCidr::V4 { network: ip, prefix_len: 32 }
    }

    pub fn contains(&self, host: RemoteHost) -> (inside: bool)
        ensures
            inside == self.holds(host),
    {
        match (*self, host) {
            (IpCidr::Any, RemoteHost::Ip4(_)) => true,
            (IpCidr::Any, RemoteHost::Ip6(_)) => true,
            (IpCidr::V4 { network, prefix_len }, RemoteHost::Ip4(ip)) => cidr_contains_v4(
                network,
                prefix_len,
                ip,
            ),
            (IpCidr::V6 { network, prefix_len }, RemoteHost::Ip6(ip)) => cidr_contains_v6(
                network,
                prefix_len,
                ip,
            ),
            _ => false,
        }
    }
}

/// Whether any block of the list holds the host.
pub open spec fn any_block_holds(blocks: Seq<IpCidr>, host: RemoteHost) -> bool {
    exists|i: int| 0 <= i < blocks.len() && (#[trigger] blocks[i]).holds(host)
}

pub fn is_in_allowlist(blocks: &Vec<IpCidr>, host: RemoteHost) -> (inside: bool)
    ensures
        inside == any_block_holds(blocks@, host),
{
    let mut i: usize = 0;
    while i < blocks.len()
        invariant
            i <= blocks.len(),
            forall|j: int| 0 <= j < i ==> !(#[trigger] blocks@[j]).holds(host),
        decreases blocks.len() - i,
    {
        if blocks[i].contains(host) {
            return true;
        }
        i += 1;
    }
    false
}

/// Whether an IPv4 address is loopback (127.0.0.0/8), link-local
/// (169.254.0.0/16), private (10.0.0.0/8, 172.16.0.0/12, 192.168.0.0/16) or
/// unspecified (0.0.0.0).
pub open spec fn v4_is_test_address(ip: u32) -> bool {
    ||| v4_block_contains(0x7f00_0000, 8, ip)
    ||| v4_block_contains(0xa9fe_0000, 16, ip)
    ||| v4_block_contains(0x0a00_0000, 8, ip)
    ||| v4_block_contains(0xac10_0000, 12, ip)
    ||| v4_block_contains(0xc0a8_0000, 16, ip)
    ||| ip == 0
}

/// Whether an IPv6 address is loopback (::1), link-local (fe80::/10), unique
/// local (fc00::/7) or unspecified (::).
pub open spec fn v6_is_test_address(ip: u128) -> bool {
    ||| ip == 1
    ||| v6_block_contains(0xfe80_0000_0000_0000_0000_0000_0000_0000, 10, ip)
    ||| v6_block_contains(0xfc00_0000_0000_0000_0000_0000_0000_0000, 7, ip)
    ||| ip == 0
}

impl RemoteHost {
    /// Whether the host is one that only a test setting can reach: a
    /// loopback, link-local, private or unspecified IP address, or a port of
    /// the in-memory transport.
    pub open spec fn is_test_address_spec(self) -> bool {
        match self {
            RemoteHost::Ip4(ip) => v4_is_test_address(ip),
            RemoteHost::Ip6(ip) => v6_is_test_address(ip),
            RemoteHost::Memory(_) => true,
            RemoteHost::Other => false,
        }
    }

    pub fn is_test_address(&self) -> (test_only: bool)
        ensures
            test_only == self.is_test_address_spec(),
    {
        match *self {
            RemoteHost::Ip4(ip) => {
                proof {
                    lemma_v4_test_blocks_valid();
                }
                cidr_contains_v4(0x7f00_0000, 8, ip) || cidr_contains_v4(0xa9fe_0000, 16, ip)
                    || cidr_contains_v4(0x0a00_0000, 8, ip) || cidr_contains_v4(
                    0xac10_0000,
                    12,
                    ip,
                ) || cidr_contains_v4(0xc0a8_0000, 16, ip) || ip == 0
            },
            RemoteHost::Ip6(ip) => {
                proof {
                    lemma_v6_test_blocks_valid();
                }
                ip == 1 || cidr_contains_v6(0xfe80_0000_0000_0000_0000_0000_0000_0000, 10, ip)
                    || cidr_contains_v6(0xfc00_0000_0000_0000_0000_0000_0000_0000, 7, ip) || ip
                    == 0
            },
            RemoteHost::Memory(_) => true,
            RemoteHost::Other => false,
        }
    }
}

proof fn lemma_v4_test_blocks_valid()
    ensures
        v4_block_is_valid(0x7f00_0000, 8),
        v4_block_is_valid(0xa9fe_0000, 16),
        v4_block_is_valid(0x0a00_0000, 8),
        v4_block_is_valid(0xac10_0000, 12),
        v4_block_is_valid(0xc0a8_0000, 16),
{
    assert(0x7f00_0000u32 & (0xffff_ffffu32 >> 8u8) == 0) by (bit_vector);
    assert(0xa9fe_0000u32 & (0xffff_ffffu32 >> 16u8) == 0) by (bit_vector);
    assert(0x0a00_0000u32 & (0xffff_ffffu32 >> 8u8) == 0) by (bit_vector);
    assert(0xac10_0000u32 & (0xffff_ffffu32 >> 12u8) == 0) by (bit_vector);
    assert(0xc0a8_0000u32 & (0xffff_ffffu32 >> 16u8) == 0) by (bit_vector);
}

proof fn lemma_v6_test_blocks_valid()
    ensures
        v6_block_is_valid(0xfe80_0000_0000_0000_0000_0000_0000_0000, 10),
        v6_block_is_valid(0xfc00_0000_0000_0000_0000_0000_0000_0000, 7),
{
    assert(0xfe80_0000_0000_0000_0000_0000_0000_0000u128 & (
    0xffff_ffff_ffff_ffff_ffff_ffff_ffff_ffffu128 >> 10u8) == 0) by (bit_vector);
    assert(0xfc00_0000_0000_0000_0000_0000_0000_0000u128 & (
    0xffff_ffff_ffff_ffff_ffff_ffff_ffff_ffffu128 >> 7u8) == 0) by (bit_vector);
}

} // verus!
