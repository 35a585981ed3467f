use borderless::clipboard::{Decision, Engine};
use borderless::lazy::{produce_image, serve_fetch, LazyStore, INLINE_THRESHOLD};
use borderless::node::NodeId;
use borderless::snapshot::{ClipItem, ClipboardSnapshot, ImageFormat, LazyPayload};

fn n(b: u8) -> NodeId {
    NodeId([b; 16])
}

fn text_snapshot(version: u64, origin: NodeId, text: &str) -> ClipboardSnapshot {
    ClipboardSnapshot { version, origin, created_unix_ms: 0, items: vec![ClipItem::Text(text.into())] }
}

#[test]
fn produce_advances_version_and_history() {
    let mut e = Engine::new(n(1), 8);
    let s1 = e.produce_text("a".into());
    let s2 = e.produce_text("b".into());
    assert_eq!(s1.version, 1);
    assert_eq!(s2.version, 2);
    let h = e.history();
    assert_eq!(h.len(), 2);
    assert_eq!(h[0].items, vec![ClipItem::Text("a".into())]);
    assert_eq!(h[1].items, vec![ClipItem::Text("b".into())]);
}

#[test]
fn ignores_self_origin_snapshots() {
    let mut e = Engine::new(n(1), 8);
    let s = e.produce_text("a".into());
    assert_eq!(e.observe_remote(s), Decision::Ignore);
}

#[test]
fn ignores_stale_versions() {
    let mut e = Engine::new(n(1), 8);
    let _s = e.produce_text("a".into());
    let _s = e.produce_text("b".into());
    let stale = text_snapshot(1, n(2), "x");
    assert_eq!(e.observe_remote(stale), Decision::Ignore);
}

#[test]
fn applies_newer_remote_and_advances_clock() {
    let mut e = Engine::new(n(1), 8);
    let _ = e.produce_text("a".into());
    let remote = text_snapshot(5, n(2), "z");
    match e.observe_remote(remote.clone()) {
        Decision::Apply(s) => assert_eq!(s, remote),
        _ => panic!("expected apply"),
    }
    assert_eq!(e.version(), 5);
    let next = e.produce_text("local".into());
    assert_eq!(next.version, 6);
}

#[test]
fn three_node_chain_does_not_loop_back() {
    let mut a = Engine::new(n(1), 8);
    let mut b = Engine::new(n(2), 8);
    let mut c = Engine::new(n(3), 8);

    let snap = a.produce_text("hi".into());

    match b.observe_remote(snap.clone()) {
        Decision::Apply(_) => {}
        _ => panic!("B should apply"),
    }
    match c.observe_remote(snap.clone()) {
        Decision::Apply(_) => {}
        _ => panic!("C should apply"),
    }
    assert_eq!(a.observe_remote(snap.clone()), Decision::Ignore);
    assert_eq!(b.observe_remote(snap.clone()), Decision::Ignore);
    assert_eq!(b.observe_remote(snap), Decision::Ignore);
}

#[test]
fn after_remote_apply_local_produce_advances_past_remote() {
    let mut a = Engine::new(n(1), 8);
    let remote = text_snapshot(10, n(2), "remote");
    match a.observe_remote(remote) {
        Decision::Apply(_) => {}
        _ => panic!(),
    }
    let next = a.produce_text("local".into());
    assert_eq!(next.version, 11);
}

#[test]
fn history_is_bounded() {
    let mut e = Engine::new(n(1), 3);
    for i in 0..10 {
        e.produce_text(format!("v{i}"));
    }
    assert_eq!(e.history().len(), 3);
}

#[test]
fn history_keeps_the_newest_snapshots() {
    let mut e = Engine::new(n(1), 2);
    for i in 0..4 {
        e.produce_text_at(format!("v{i}"), 1000 + i);
    }
    let h = e.history();
    assert_eq!(h.len(), 2);
    assert_eq!(h[0].items, vec![ClipItem::Text("v2".into())]);
    assert_eq!(h[1].items, vec![ClipItem::Text("v3".into())]);
    assert_eq!(h[1].created_unix_ms, 1003);
}

#[test]
fn zero_history_limit_keeps_one() {
    let mut e = Engine::new(n(1), 0);
    e.produce_text("a".into());
    e.produce_text("b".into());
    assert_eq!(e.history().len(), 1);
}

#[test]
fn observe_twice_applies_once() {
    let mut e = Engine::new(n(1), 8);
    let remote = text_snapshot(3, n(2), "r");
    assert!(matches!(e.observe_remote(remote.clone()), Decision::Apply(_)));
    assert_eq!(e.observe_remote(remote), Decision::Ignore);
    assert_eq!(e.version(), 3);
    assert_eq!(e.history().len(), 1);
}

#[test]
fn engine_reports_its_id() {
    let e = Engine::new(n(7), 4);
    assert_eq!(e.self_id(), n(7));
    assert_eq!(e.version(), 0);
}

#[test]
fn small_image_inlines() {
    let mut store = LazyStore::new();
    let item = produce_image(&mut store, vec![1, 2, 3, 4], ImageFormat::Png);
    match item {
        ClipItem::Image { data, .. } => match data {
            LazyPayload::Inline(b) => assert_eq!(b, vec![1, 2, 3, 4]),
            LazyPayload::OnDemand { .. } => panic!("small image should inline"),
        },
        _ => panic!(),
    }
    assert!(store.is_empty(), "small images don't touch the store");
}

#[test]
fn large_image_goes_lazy() {
    let mut store = LazyStore::new();
    let big: Vec<u8> = vec![7u8; INLINE_THRESHOLD + 1];
    let item = produce_image(&mut store, big.clone(), ImageFormat::Png);
    match &item {
        ClipItem::Image { data, hash, .. } => match data {
            LazyPayload::OnDemand { hash: h2, size } => {
                assert_eq!(*size, big.len() as u64);
                assert_eq!(hash, h2);
                assert_eq!(*hash, *blake3::hash(&big).as_bytes());
                let bytes = store.get(h2).expect("bytes present");
                assert_eq!(bytes.len(), big.len());
            }
            _ => panic!("large image must be lazy"),
        },
        _ => panic!(),
    }
    assert_eq!(store.len(), 1);
}

#[test]
fn store_evicts_oldest_when_capped() {
    let cap = 1024;
    let mut store = LazyStore::with_cap(cap);
    let h1 = store.insert(vec![1u8; 600]);
    assert!(store.get(&h1).is_some());
    let _h2 = store.insert(vec![2u8; 600]);
    assert!(store.get(&h1).is_none(), "h1 should be evicted");
    assert_eq!(store.len(), 1);
}

#[test]
fn duplicate_insert_is_idempotent() {
    let mut store = LazyStore::new();
    let h1 = store.insert(vec![1, 2, 3]);
    let h2 = store.insert(vec![1, 2, 3]);
    assert_eq!(h1, h2);
    assert_eq!(store.len(), 1);
}

#[test]
fn serve_fetch_resolves_inline_and_on_demand() {
    let mut store = LazyStore::new();
    let inline = LazyPayload::Inline(vec![4, 5, 6]);
    assert_eq!(serve_fetch(&store, &inline), Some(vec![4, 5, 6]));

    let bytes = vec![9u8; 1024];
    let hash = store.insert(bytes.clone());
    let on_demand = LazyPayload::OnDemand { hash, size: bytes.len() as u64 };
    assert_eq!(serve_fetch(&store, &on_demand), Some(bytes));

    let missing = LazyPayload::OnDemand { hash: [0u8; 32], size: 4 };
    assert_eq!(serve_fetch(&store, &missing), None);
}

#[test]
fn store_insert_hash_is_blake3_and_remove_forgets() {
    let mut store = LazyStore::new();
    let h = store.insert(vec![5u8; 10]);
    assert_eq!(h, *blake3::hash(&[5u8; 10]).as_bytes());
    assert_eq!(store.total_bytes(), 10);
    store.remove(&h);
    assert!(store.get(&h).is_none());
    assert_eq!(store.total_bytes(), 0);
    assert!(store.is_empty());
}

#[test]
fn oversized_entry_is_refused() {
    let mut store = LazyStore::with_cap(10);
    let a = store.insert(vec![1u8; 4]);
    let b = store.insert(vec![2u8; 11]);
    assert_eq!(b, *blake3::hash(&[2u8; 11]).as_bytes());
    assert!(store.get(&b).is_none());
    assert_eq!(store.len(), 1);
    assert_eq!(store.get(&a), Some(vec![1u8; 4]));
    assert!(store.total_bytes() <= store.cap());
}

#[test]
fn total_stays_within_cap() {
    let mut store = LazyStore::with_cap(100);
    for i in 0..20u8 {
        store.insert(vec![i; 30 + i as usize]);
        assert!(store.total_bytes() <= 100);
    }
    let last = store.insert(vec![7u8; 100]);
    assert_eq!(store.len(), 1);
    assert_eq!(store.total_bytes(), 100);
    assert!(store.get(&last).is_some());
}
