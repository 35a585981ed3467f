use borderless::handshake::{
    check_peer_hello, hello_bind_label, hello_binding, make_signed_hello, HandshakeError, SignedHello,
};
use borderless::identity::{verify_signature, Identity, IdentityError};
use borderless::node::NodeId;
use borderless::peer_store::{KnownPeer, PeerStore};
use borderless::sas::{sas_digits, sas_from_digest, ShortAuthString};

#[test]
fn sign_and_verify_roundtrip() {
    let id = Identity::generate();
    let msg = b"hello tls exporter";
    let sig = id.sign(msg);
    verify_signature(&id.pubkey(), msg, &sig).unwrap();
}

#[test]
fn tampered_message_fails_verification() {
    let id = Identity::from_secret([5u8; 32]);
    let sig = id.sign(b"abc");
    assert_eq!(verify_signature(&id.pubkey(), b"abd", &sig), Err(IdentityError::BadSignature));
}

#[test]
fn save_and_load_yields_same_pubkey() {
    let id1 = Identity::generate();
    let bytes = id1.to_file_bytes();
    let id2 = Identity::from_file_bytes(&bytes).unwrap();
    assert_eq!(id1.pubkey(), id2.pubkey());
    assert_eq!(id1.node_id(), id2.node_id());
}

#[test]
fn identity_file_layout_and_short_file() {
    let id = Identity::from_secret([1u8; 32]);
    let bytes = id.to_file_bytes();
    assert_eq!(bytes.len(), 64);
    assert_eq!(&bytes[..32], &[1u8; 32]);
    assert_eq!(&bytes[32..], &id.pubkey());
    assert!(matches!(Identity::from_file_bytes(&bytes[..31]), Err(IdentityError::FileTooShort { len: 31 })));
    let expected = ed25519_dalek::SigningKey::from_bytes(&[1u8; 32]).verifying_key().to_bytes();
    assert_eq!(id.pubkey(), expected);
    assert_eq!(id.node_id(), NodeId::from_pubkey(&expected));
}

#[test]
fn symmetric_in_pubkey_order() {
    let pk_a = [1u8; 32];
    let pk_b = [2u8; 32];
    let salt = b"abc";
    assert_eq!(sas_digits(&pk_a, &pk_b, salt), sas_digits(&pk_b, &pk_a, salt));
}

#[test]
fn salt_changes_digits() {
    let pk_a = [1u8; 32];
    let pk_b = [2u8; 32];
    assert_ne!(sas_digits(&pk_a, &pk_b, b"a"), sas_digits(&pk_a, &pk_b, b"b"));
}

#[test]
fn six_digit_pad() {
    let s = ShortAuthString(42);
    assert_eq!(s.to_string_padded(), "000042");
}

#[test]
fn padding_exact_values() {
    assert_eq!(ShortAuthString(0).to_string_padded(), "000000");
    assert_eq!(ShortAuthString(999_999).to_string_padded(), "999999");
    assert_eq!(ShortAuthString(1_234_567).to_string_padded(), "1234567");
}

#[test]
fn sas_is_blake3_of_tagged_sorted_keys() {
    let pk_a = [2u8; 32];
    let pk_b = [1u8; 32];
    let mut h = blake3::Hasher::new();
    h.update(b"borderless/sas/v0");
    h.update(&pk_b);
    h.update(&pk_a);
    h.update(b"salt");
    let d = h.finalize();
    let b = d.as_bytes();
    let v = u32::from_be_bytes([b[0], b[1], b[2], b[3]]) % 1_000_000;
    assert_eq!(sas_digits(&pk_a, &pk_b, b"salt"), ShortAuthString(v));
    assert!(sas_digits(&pk_a, &pk_b, b"salt").0 < 1_000_000);
}

#[test]
fn sas_from_digest_exact_value() {
    let mut d = [0u8; 32];
    d[0] = 0x01;
    d[1] = 0x02;
    d[2] = 0x03;
    d[3] = 0x04;
    assert_eq!(sas_from_digest(&d), ShortAuthString(0x0102_0304 % 1_000_000));
}

#[test]
fn round_trip_persistence() {
    let pk = [3u8; 32];
    let written = {
        let mut store = PeerStore::new();
        assert!(store.is_empty());
        store.insert(pk, "alice".into(), 1_700_000_000);
        assert!(store.is_known(&pk));
        store.iter()
    };
    let store = PeerStore::from_file_peers(written);
    assert_eq!(store.len(), 1);
    assert_eq!(store.get(&pk).unwrap().name, "alice");
}

#[test]
fn peer_entry_records_hex_key_and_time() {
    let mut store = PeerStore::new();
    store.insert([0xABu8; 32], "bob".into(), 7);
    let p = store.get(&[0xABu8; 32]).unwrap();
    assert_eq!(p.pubkey, "ab".repeat(32));
    assert_eq!(p.paired_at, 7);
    store.insert([0xABu8; 32], "bobby".into(), 8);
    assert_eq!(store.len(), 1);
    assert_eq!(store.get(&[0xABu8; 32]).unwrap().name, "bobby");
    store.remove(&[0xABu8; 32]);
    assert!(!store.is_known(&[0xABu8; 32]));
    assert!(store.get(&[0xABu8; 32]).is_none());
}

#[test]
fn remove_forgets_exactly_one_peer() {
    let mut store = PeerStore::new();
    store.insert([1u8; 32], "a".into(), 1);
    store.insert([2u8; 32], "b".into(), 2);
    assert_eq!(store.len(), 2);
    store.remove(&[1u8; 32]);
    assert_eq!(store.len(), 1);
    assert!(!store.is_known(&[1u8; 32]));
    assert_eq!(store.get(&[2u8; 32]).unwrap().name, "b");
    store.remove(&[9u8; 32]);
    assert_eq!(store.len(), 1);
}

#[test]
fn file_peers_skip_bad_keys_and_last_wins() {
    let good = "cd".repeat(32);
    let peers = vec![
        KnownPeer { name: "old".into(), pubkey: good.clone(), paired_at: 1 },
        KnownPeer { name: "short".into(), pubkey: "abcd".into(), paired_at: 2 },
        KnownPeer { name: "nothex".into(), pubkey: "zz".repeat(32), paired_at: 3 },
        KnownPeer { name: "new".into(), pubkey: good.to_uppercase(), paired_at: 4 },
    ];
    let store = PeerStore::from_file_peers(peers);
    assert_eq!(store.len(), 1);
    let p = store.get(&[0xCDu8; 32]).unwrap();
    assert_eq!(p.name, "new");
    assert_eq!(p.paired_at, 4);
}

#[test]
fn hello_binding_is_label_then_exporter() {
    assert_eq!(&hello_bind_label(), b"borderless/hello/v0");
    let b = hello_binding(&[7u8; 32]);
    assert_eq!(&b[..19], b"borderless/hello/v0");
    assert_eq!(&b[19..], &[7u8; 32]);
}

fn hello_for(id: &Identity, name: &str, exporter: &[u8; 32]) -> SignedHello {
    make_signed_hello(id, name, exporter)
}

#[test]
fn tofu_pairs_unknown_peer_when_accepting() {
    let spoke = Identity::from_secret([11u8; 32]);
    let exporter = [42u8; 32];
    let hello = hello_for(&spoke, "spoke", &exporter);
    assert_eq!(hello.max_protocol.0, 0);
    let mut store = PeerStore::new();
    let v = check_peer_hello(&hello, &exporter, None, &mut store, true, 123).unwrap();
    assert!(v.newly_paired);
    assert_eq!(v.pubkey, spoke.pubkey());
    assert_eq!(v.node_id, spoke.node_id());
    assert_eq!(v.name, "spoke");
    assert!(store.is_known(&spoke.pubkey()));
    assert_eq!(store.get(&spoke.pubkey()).unwrap().paired_at, 123);
    let again = check_peer_hello(&hello, &exporter, None, &mut store, false, 999).unwrap();
    assert!(!again.newly_paired);
    assert_eq!(store.get(&spoke.pubkey()).unwrap().paired_at, 123);
}

#[test]
fn strict_mode_rejects_unknown_spoke() {
    let spoke = Identity::from_secret([12u8; 32]);
    let exporter = [1u8; 32];
    let hello = hello_for(&spoke, "spoke", &exporter);
    let mut store = PeerStore::new();
    let r = check_peer_hello(&hello, &exporter, None, &mut store, false, 5);
    match r {
        Err(HandshakeError::UnknownPeer { node_id, name }) => {
            assert_eq!(node_id, spoke.node_id());
            assert_eq!(name, "spoke");
        }
        _ => panic!("hub must reject unknown spoke"),
    }
    assert!(store.is_empty());
}

#[test]
fn pubkey_pinning_rejects_wrong_server() {
    let hub = Identity::from_secret([13u8; 32]);
    let exporter = [2u8; 32];
    let hello = hello_for(&hub, "hub", &exporter);
    let mut store = PeerStore::new();
    let wrong = [0xEEu8; 32];
    match check_peer_hello(&hello, &exporter, Some(wrong), &mut store, true, 5) {
        Err(HandshakeError::UnexpectedPeer { expected, presented }) => {
            assert_eq!(expected, wrong);
            assert_eq!(presented, hub.pubkey());
        }
        _ => panic!("must reject server with wrong pubkey"),
    }
    assert!(store.is_empty());
    assert!(check_peer_hello(&hello, &exporter, Some(hub.pubkey()), &mut store, true, 5).is_ok());
}

#[test]
fn hello_for_another_session_is_rejected() {
    let peer = Identity::from_secret([14u8; 32]);
    let hello = hello_for(&peer, "p", &[3u8; 32]);
    let mut store = PeerStore::new();
    assert!(matches!(
        check_peer_hello(&hello, &[4u8; 32], None, &mut store, true, 1),
        Err(HandshakeError::BadSignature)
    ));
    let mut short = hello.clone();
    short.signature.truncate(10);
    assert!(matches!(
        check_peer_hello(&short, &[3u8; 32], None, &mut store, true, 1),
        Err(HandshakeError::BadSignatureLength { len: 10 })
    ));
    assert!(store.is_empty());
}
