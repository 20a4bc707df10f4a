//! Peer identities: public keys, node ids and the peer record.

use blake2::digest::consts::U13;
use blake2::{Blake2b, Digest};
use multiaddr::Multiaddr;
use vstd::prelude::*;

verus! {

/// The number of bytes of the digest a node id is read from.
pub const NODE_ID_DIGEST_LEN: usize = 13;

/// The BLAKE2b digest of `input` with an output length of 13 bytes.
pub uninterp spec fn blake2b_104(input: Seq<u8>) -> Seq<u8>;

/// Calls `blake2::Blake2b::<U13>::digest` on the input. The contract gives
/// the digest its name and states that it is 13 bytes long, the output size
/// the hasher is instantiated with.
#[verifier::external_body]
fn hash_blake2b_104(input: &Vec<u8>) -> (digest: Vec<u8>)
    ensures
        digest@ == blake2b_104(input@),
        digest@.len() == NODE_ID_DIGEST_LEN,
{
    Blake2b::<U13>::digest(input.as_slice()).to_vec()
}

/// `multiaddr::Multiaddr`, carried through the library as an opaque value.
#[verifier::external_type_specification]
#[verifier::external_body]
pub struct ExMultiaddr(Multiaddr);

/// `Multiaddr::clone` returns an address equal to the one it was called on:
/// the type derives `Clone` over its byte buffer.
pub assume_specification[ <Multiaddr as Clone>::clone ](address: &Multiaddr) -> (copy: Multiaddr)
    ensures
        copy == *address,
;

/// The number that the bytes of `bytes` spell out, most significant byte first.
pub open spec fn big_endian_value(bytes: Seq<u8>) -> nat
    decreases bytes.len(),
{
    if bytes.len() == 0 {
        0
    } else {
        big_endian_value(bytes.drop_last()) * 256 + bytes.last() as nat
    }
}

/// 256 to the power of `n`.
pub open spec fn pow256(n: nat) -> nat
    decreases n,
{
    if n == 0 {
        1
    } else {
        256 * pow256((n - 1) as nat)
    }
}

/// A sequence of `n` bytes spells out a number below 256 to the `n`.
pub proof fn lemma_big_endian_value_bound(bytes: Seq<u8>)
    ensures
        big_endian_value(bytes) < pow256(bytes.len()),
    decreases bytes.len(),
{
    if bytes.len() > 0 {
        lemma_big_endian_value_bound(bytes.drop_last());
        let head = big_endian_value(bytes.drop_last());
        let p = pow256((bytes.len() - 1) as nat);
        assert(head + 1 <= p);
        assert(head * 256 + 256 <= p * 256) by (nonlinear_arith)
            requires
                head + 1 <= p,
        ;
    }
}

/// Whether two byte strings hold the same bytes.
pub fn bytes_equal(a: &Vec<u8>, b: &Vec<u8>) -> (same: bool)
    ensures
        same == (a@ == b@),
{
    if a.len() != b.len() {
        return false;
    }
    let mut i: usize = 0;
    while i < a.len()
        invariant
            i <= a.len(),
            a.len() == b.len(),
            forall|j: int| 0 <= j < i ==> a@[j] == b@[j],
        decreases a.len() - i,
    {
        if a[i] != b[i] {
            return false;
        }
        i += 1;
    }
    assert(a@ =~= b@);
    true
}

/// A long-term public key, as the bytes of its canonical encoding.
#[derive(Debug, PartialEq, Eq)]
pub struct PublicKey {
    bytes: Vec<u8>,
}

impl View for PublicKey {
    type V = Seq<u8>;

    closed spec fn view(&self) -> Seq<u8> {
        self.bytes@
    }
}

impl PublicKey {
    pub fn from_bytes(bytes: Vec<u8>) -> (key: PublicKey)
        ensures
            key@ == bytes@,
    {
        PublicKey { bytes }
    }

    pub fn as_bytes(&self) -> (bytes: &Vec<u8>)
        ensures
            bytes@ == self@,
    {
        &self.bytes
    }

    /// Whether two keys have the same encoding.
    pub fn matches(&self, other: &PublicKey) -> (same: bool)
        ensures
            same == (self@ == other@),
    {
        bytes_equal(&self.bytes, &other.bytes)
    }
}

impl Clone for PublicKey {
    fn clone(&self) -> (copy: PublicKey)
        ensures
            copy@ == self@,
    {
        PublicKey { bytes: self.bytes.clone() }
    }
}

/// A short, stable identifier of a peer, derived from its public key.
#[derive(Clone, Copy, Debug, PartialEq, Eq, Structural, Hash, PartialOrd, Ord)]
pub struct NodeId {
    /// The 13 bytes of the identifier, read as a number.
    pub value: u128,
}

impl NodeId {
    /// The node id that belongs to the key with the encoding `key`: its
    /// 13-byte BLAKE2b digest, read as a number.
    pub open spec fn of_key(key: Seq<u8>) -> NodeId {
        NodeId { value: big_endian_value(blake2b_104(key)) as u128 }
    }

    pub fn from_value(value: u128) -> (id: NodeId)
        ensures
            id.value == value,
    {
        NodeId { value }
    }

    pub fn as_value(&self) -> (value: u128)
        ensures
            value == self.value,
    {
        self.value
    }

    /// Derives the node id of a public key.
    pub fn from_key(key: &PublicKey) -> (id: NodeId)
        ensures
            id == NodeId::of_key(key@),
    {
        let digest = hash_blake2b_104(key.as_bytes());
        let mut value: u128 = 0;
        let mut i: usize = 0;
        while i < digest.len()
            invariant
                i <= digest.len(),
                digest.len() == NODE_ID_DIGEST_LEN,
                value as nat == big_endian_value(digest@.take(i as int)),
                value < pow256(i as nat),
            decreases digest.len() - i,
        {
            proof {
                reveal_with_fuel(pow256, 15);
                assert(digest@.take(i + 1).drop_last() =~= digest@.take(i as int));
                lemma_big_endian_value_bound(digest@.take(i + 1));
            }
            value = value * 256 + digest[i] as u128;
            i += 1;
        }
        assert(digest@.take(i as int) =~= digest@);
        NodeId { value }
    }
}

/// What the peer directory knows of a remote node.
#[derive(Debug, PartialEq, Eq)]
pub struct Peer {
    pub public_key: PublicKey,
    pub node_id: NodeId,
    pub addresses: Vec<Multiaddr>,
    pub banned: bool,
}

/// A peer record, as the contracts speak of it.
pub struct PeerView {
    pub public_key: Seq<u8>,
    pub node_id: NodeId,
    pub addresses: Seq<Multiaddr>,
    pub banned: bool,
}

impl View for Peer {
    type V = PeerView;

    open spec fn view(&self) -> PeerView {
        PeerView {
            public_key: self.public_key@,
            node_id: self.node_id,
            addresses: self.addresses@,
            banned: self.banned,
        }
    }
}

impl Clone for Peer {
    fn clone(&self) -> (copy: Peer)
        ensures
            copy@ == self@,
    {
        let mut addresses: Vec<Multiaddr> = Vec::new();
        let mut i: usize = 0;
        while i < self.addresses.len()
            invariant
                i <= self.addresses.len(),
                addresses@ == self.addresses@.take(i as int),
            decreases self.addresses.len() - i,
        {
            addresses.push(self.addresses[i].clone());
            assert(addresses@ =~= self.addresses@.take(i + 1));
            i += 1;
        }
        assert(self.addresses@.take(i as int) =~= self.addresses@);
        Peer {
            public_key: self.public_key.clone(),
            node_id: self.node_id,
            addresses,
            banned: self.banned,
        }
    }
}

impl Peer {
    /// A peer record for `public_key`, with the node id that belongs to it.
    pub fn new(public_key: PublicKey, addresses: Vec<Multiaddr>) -> (peer: Peer)
        ensures
            peer.public_key@ == public_key@,
            peer.node_id == NodeId::of_key(public_key@),
            peer.addresses@ == addresses@,
            !peer.banned,
    {
        let node_id = NodeId::from_key(&public_key);
        Peer { public_key, node_id, addresses, banned: false }
    }
}

} // verus!
