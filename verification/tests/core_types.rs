use borderless::discovery::{discovered_peer, txt_node_id, txt_properties, IpAddress, SERVICE_TYPE};
use borderless::hid::HidUsage;
use borderless::node::{protocol_v0, NodeId, ProtocolVersion};
use borderless::snapshot::{ClipItem, ClipboardSnapshot};
use borderless::wire::{
    chunk_fetch_response, encode_frame, frame_len, le32_bytes, le32_value, parse_frame, FrameError, WireFrame,
    FETCH_CHUNK_SIZE, MAX_FRAME, MAX_HELLO,
};

#[test]
fn protocol_version_ordering() {
    assert!(protocol_v0() < ProtocolVersion(1));
    assert!(ProtocolVersion(2) > ProtocolVersion(1));
}

#[test]
fn node_id_is_deterministic_per_pubkey() {
    let pk = [9u8; 32];
    assert_eq!(NodeId::from_pubkey(&pk), NodeId::from_pubkey(&pk));
    assert_ne!(NodeId::from_pubkey(&pk), NodeId::from_pubkey(&[0u8; 32]));
}

#[test]
fn node_id_is_truncated_blake3() {
    let pk = [9u8; 32];
    let h = blake3::hash(&pk);
    assert_eq!(NodeId::from_pubkey(&pk).0[..], h.as_bytes()[..16]);
}

#[test]
fn node_id_hex_is_lowercase() {
    let id = NodeId([0xAB; 16]);
    assert_eq!(id.to_hex(), "ab".repeat(16));
}

#[test]
fn hex_text_of_ids_and_keys() {
    assert_eq!(NodeId([0x00, 0x0f, 0xa0, 0xff, 1, 2, 3, 4, 5, 6, 7, 8, 9, 10, 11, 12]).to_hex(), "000fa0ff0102030405060708090a0b0c");
    let mut key = [0u8; 32];
    key[0] = 0x0f;
    key[31] = 0xa0;
    let text = format!("0F{}A0", "00".repeat(30));
    assert_eq!(borderless::session::parse_pubkey(&text), Ok(key));
}

#[test]
fn hid_usage_classes() {
    assert!(HidUsage(HidUsage::KEY_A).is_keyboard());
    assert!(!HidUsage(HidUsage::KEY_A).is_consumer());
    assert!(HidUsage(HidUsage::CONSUMER_MUTE).is_consumer());
    assert!(!HidUsage(HidUsage::CONSUMER_MUTE).is_keyboard());
}

#[test]
fn le32_exact_values() {
    assert_eq!(le32_bytes(0x0403_0201), [1, 2, 3, 4]);
    assert_eq!(le32_value(&[1, 2, 3, 4]), 0x0403_0201);
}

#[test]
fn frame_round_trip_and_rest() {
    let framed = encode_frame(b"hello", MAX_FRAME).unwrap();
    assert_eq!(framed, vec![5, 0, 0, 0, b'h', b'e', b'l', b'l', b'o']);
    let mut buf = framed.clone();
    buf.extend_from_slice(&[9, 9]);
    let (payload, used) = parse_frame(&buf, MAX_FRAME).unwrap().unwrap();
    assert_eq!(payload, b"hello".to_vec());
    assert_eq!(used, 9);
}

#[test]
fn frame_incomplete_and_too_large() {
    assert_eq!(parse_frame(&[5, 0, 0], MAX_FRAME), Ok(None));
    assert_eq!(parse_frame(&[5, 0, 0, 0, 1], MAX_FRAME), Ok(None));
    assert_eq!(frame_len(&[0, 0x40, 0, 0], MAX_HELLO), Ok(0x4000));
    assert_eq!(frame_len(&[1, 0x40, 0, 0], MAX_HELLO), Err(FrameError::TooLarge { len: 0x4001, max: MAX_HELLO }));
    assert_eq!(frame_len(&[0, 0x40, 0, 0], MAX_FRAME), Ok(0x4000));
    assert_eq!(encode_frame(&[0u8; 20], 10), Err(FrameError::TooLarge { len: 20, max: 10 }));
}

#[test]
fn fetch_response_chunks() {
    let hash = [3u8; 32];
    let empty = chunk_fetch_response(hash, &[]);
    assert_eq!(empty, vec![WireFrame::FetchResponse { hash, chunk_idx: 0, total: 1, bytes: vec![] }]);
    let bytes = vec![1u8; FETCH_CHUNK_SIZE * 2 + 5];
    let frames = chunk_fetch_response(hash, &bytes);
    assert_eq!(frames.len(), 3);
    let mut joined = Vec::new();
    for (i, f) in frames.iter().enumerate() {
        match f {
            WireFrame::FetchResponse { hash: h, chunk_idx, total, bytes } => {
                assert_eq!(*h, hash);
                assert_eq!(*chunk_idx as usize, i);
                assert_eq!(*total, 3);
                joined.extend_from_slice(bytes);
            }
            _ => panic!("expected a chunk"),
        }
    }
    assert_eq!(joined, bytes);
}

#[test]
fn snapshot_duplicate_is_equal() {
    let s = ClipboardSnapshot { version: 42, origin: NodeId([7; 16]), created_unix_ms: 1_700_000_000_000, items: vec![ClipItem::Text("hello".into())] };
    assert_eq!(s.duplicate(), s);
}

#[test]
fn discovery_txt_properties() {
    assert_eq!(SERVICE_TYPE, "_borderless._udp.local.");
    let props = txt_properties(&NodeId([0xAA; 16]), "alice-test");
    assert_eq!(
        props,
        vec![
            ("proto".to_string(), "0".to_string()),
            ("nodeid".to_string(), "aa".repeat(16)),
            ("name".to_string(), "alice-test".to_string()),
        ]
    );
}

#[test]
fn discovery_reads_announcements() {
    let own = "alice._borderless._udp.local.".to_string();
    assert!(discovered_peer(&own, own.clone(), None, None, "alice.local.", vec![], 1).is_none());
    let p = discovered_peer(
        &own,
        "bob._borderless._udp.local.".to_string(),
        Some(&"bb".repeat(16)),
        None,
        "bob.local.",
        vec![IpAddress::V4(0x7f00_0001)],
        38502,
    )
    .unwrap();
    assert_eq!(p.node_id, Some(NodeId([0xBB; 16])));
    assert_eq!(p.name, "bob.local.");
    assert_eq!(p.addrs, vec![IpAddress::V4(0x7f00_0001)]);
    assert_eq!(p.port, 38502);
    assert_eq!(txt_node_id(Some("abcd")), None);
    assert_eq!(txt_node_id(Some("zz")), None);
    assert_eq!(txt_node_id(None), None);
}
