use blake2::digest::consts::U13;
use blake2::digest::Mac;
use blake2::Blake2bMac;
use tari_node_stack::comms::peer::{bytes_equal, NodeId, Peer, PublicKey};

#[test]
fn node_id_is_derived_from_the_key_alone() {
    let a = PublicKey::from_bytes(vec![1u8; 32]);
    let b = PublicKey::from_bytes(vec![1u8; 32]);
    assert_eq!(NodeId::from_key(&a), NodeId::from_key(&b));
}

#[test]
fn node_id_differs_between_keys_and_is_no_copy_of_the_key() {
    let a = PublicKey::from_bytes(vec![1u8; 32]);
    let b = PublicKey::from_bytes(vec![2u8; 32]);
    let id_a = NodeId::from_key(&a);
    let id_b = NodeId::from_key(&b);
    assert_ne!(id_a, id_b);
    // thirteen bytes of 0x01, read as a number
    let prefix: u128 = 0x01010101010101010101010101;
    assert_ne!(id_a.as_value(), prefix);
    assert!(id_a.as_value() < (1u128 << 104));
}

#[test]
fn peer_new_derives_its_node_id() {
    let key = PublicKey::from_bytes(vec![7u8; 32]);
    let expected = NodeId::from_key(&key);
    let peer = Peer::new(key, Vec::new());
    assert_eq!(peer.node_id, expected);
    assert!(!peer.banned);
    assert!(peer.addresses.is_empty());
}

#[test]
fn node_id_is_the_thirteen_byte_blake2b_digest_of_the_key() {
    for seed in [0u8, 1, 0x7f, 0xff] {
        let bytes = vec![seed; 32];
        // the unkeyed hash, by way of the keyed one without a key
        let mut hasher = Blake2bMac::<U13>::new_with_salt_and_personal(None, &[], &[]).unwrap();
        hasher.update(&bytes);
        let digest = hasher.finalize().into_bytes();
        assert_eq!(digest.len(), 13);
        let expected = digest.iter().fold(0u128, |value, byte| value * 256 + *byte as u128);
        assert_eq!(NodeId::from_key(&PublicKey::from_bytes(bytes)).as_value(), expected);
    }
}

#[test]
fn keys_match_by_their_bytes() {
    let key = PublicKey::from_bytes(vec![1, 2, 3]);
    assert!(key.matches(&PublicKey::from_bytes(vec![1, 2, 3])));
    assert!(!key.matches(&PublicKey::from_bytes(vec![1, 2, 4])));
    assert!(!key.matches(&PublicKey::from_bytes(vec![1, 2])));
    assert!(!key.matches(&PublicKey::from_bytes(vec![1, 2, 3, 0])));
    assert_eq!(key.as_bytes(), &vec![1, 2, 3]);
    assert_eq!(key.clone(), key);
    assert!(bytes_equal(&vec![], &vec![]));
    assert!(!bytes_equal(&vec![0], &vec![]));
}
