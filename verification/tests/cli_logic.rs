use borderless::doctor::{report_plan, ReportItem};
use borderless::clipboard::Engine;
use borderless::config::{plan_connect, BindIp, Config, ConnectError, RoleKind, DEFAULT_PORT};
use borderless::doctor::{
    check_firewall_hint, check_hub_bind, check_spoke_addr, check_spoke_reachable, unconfigured_role_check,
    CheckResult, HostOs, Reachability, Status,
};
use borderless::input::InputEvent;
use borderless::lazy::LazyStore;
use borderless::node::NodeId;
use borderless::session::{
    backoff_delay_secs, broadcast_targets, hub_on_frame, ipv4_first_order, next_backoff_index, parse_pubkey,
    spoke_on_frame, watch_to_frame, HubAction, PubkeyError, SpokeAction,
};
use borderless::snapshot::{ClipItem, ClipboardSnapshot};
use borderless::wire::WireFrame;

#[test]
fn format_includes_status_glyph_and_name() {
    let report = vec![
        CheckResult { name: "alpha", status: Status::Pass, detail: "fine".into() },
        CheckResult { name: "beta", status: Status::Warn, detail: "watch out".into() },
        CheckResult { name: "gamma", status: Status::Fail, detail: "broken".into() },
    ];
    let s = borderless::doctor::format(&report);
    assert!(s.contains("[ OK ] alpha"));
    assert!(s.contains("[WARN] beta"));
    assert!(s.contains("[FAIL] gamma"));
}

#[test]
fn glyph_widths_are_consistent() {
    assert_eq!(Status::Pass.glyph().chars().count(), 4);
    assert_eq!(Status::Warn.glyph().chars().count(), 4);
    assert_eq!(Status::Fail.glyph().chars().count(), 4);
}

#[test]
fn format_exact_text() {
    let report = vec![CheckResult { name: "x", status: Status::Warn, detail: "one\r\ntwo\n".into() }];
    assert_eq!(borderless::doctor::format(&report), "borderless doctor:\n\n  [WARN] x\n         one\n         two\n");
    let empty: Vec<CheckResult> = Vec::new();
    assert_eq!(borderless::doctor::format(&empty), "borderless doctor:\n\n");
    let no_detail = vec![CheckResult { name: "y", status: Status::Pass, detail: String::new() }];
    assert_eq!(borderless::doctor::format(&no_detail), "borderless doctor:\n\n  [ OK ] y\n");
    let cr_last = vec![CheckResult { name: "z", status: Status::Fail, detail: "a\n\nb\r".into() }];
    assert_eq!(borderless::doctor::format(&cr_last), "borderless doctor:\n\n  [FAIL] z\n         a\n         \n         b\r\n");
}

#[test]
fn firewall_hint_names_the_port() {
    let c = check_firewall_hint(HostOs::Linux, DEFAULT_PORT);
    assert_eq!(c.name, "firewall hint");
    assert_eq!(c.status, Status::Warn);
    assert_eq!(
        c.detail,
        "If spokes can't reach this host, allow inbound TCP 38437.\ne.g.: sudo ufw allow 38437/tcp"
    );
    assert_eq!(check_firewall_hint(HostOs::Other, 7).detail, "Allow inbound TCP 7.");
    assert!(check_firewall_hint(HostOs::Windows, 1).detail.contains("-LocalPort 1 -Action Allow"));
    assert!(check_firewall_hint(HostOs::Macos, 65535).detail.ends_with("TCP 65535."));
}

#[test]
fn binary_check_text() {
    let c = borderless::doctor::check_binary("0.2.0", "linux", "x86_64");
    assert_eq!((c.name, c.status), ("binary", Status::Pass));
    assert_eq!(c.detail, "borderless v0.2.0 on linux (x86_64)");
}

#[test]
fn role_and_address_checks() {
    let r = unconfigured_role_check();
    assert_eq!((r.name, r.status), ("role", Status::Warn));
    let ok = check_spoke_addr(Some("hub.lan:38437"));
    assert_eq!((ok.status, ok.detail.as_str()), (Status::Pass, "server_addr = hub.lan:38437"));
    assert_eq!(check_spoke_addr(None).status, Status::Fail);
    let b = check_hub_bind("0.0.0.0:38437", None);
    assert_eq!((b.status, b.detail.as_str()), (Status::Pass, "can bind 0.0.0.0:38437"));
    let f = check_hub_bind("0.0.0.0:1", Some("denied"));
    assert_eq!((f.status, f.detail.as_str()), (Status::Fail, "cannot bind 0.0.0.0:1: denied"));
}

#[test]
fn reachability_outcomes() {
    assert_eq!(check_spoke_reachable("h:1", Reachability::NoAddress).status, Status::Warn);
    let rf = check_spoke_reachable("h:1", Reachability::ResolveFailed("nope".into()));
    assert_eq!((rf.status, rf.detail.as_str()), (Status::Fail, "resolve h:1 failed: nope"));
    let c = check_spoke_reachable("h:1", Reachability::Connected("10.0.0.1:1".into()));
    assert_eq!((c.status, c.detail.as_str()), (Status::Pass, "TCP connect to 10.0.0.1:1 succeeded within 5 s"));
    let u = check_spoke_reachable("h:1", Reachability::Unreachable);
    assert_eq!(u.status, Status::Fail);
    assert!(u.detail.starts_with("could not TCP-connect to h:1 within 5 s.\n"));
}

#[test]
fn platform_checks() {
    let l = borderless::doctor::linux::checks(Some(":0"), false);
    assert_eq!(l.len(), 2);
    assert_eq!(l[0].status, Status::Pass);
    assert_eq!(l[0].detail, "found DISPLAY=:0; clipboard text + X11 input emit should work");
    assert_eq!(l[1].status, Status::Pass);
    let l2 = borderless::doctor::linux::checks(Some(""), true);
    assert_eq!(l2[0].status, Status::Warn);
    assert_eq!(l2[1].status, Status::Warn);
    assert_eq!(borderless::doctor::macos::checks()[0].name, "Permissions");
    assert_eq!(borderless::doctor::windows::checks()[0].name, "Firewall");
}

#[test]
fn defaults_are_sensible() {
    let cfg = Config::with_hostname(None);
    assert_eq!(cfg.hub.port, DEFAULT_PORT);
    assert!(cfg.hub.bind_ip.is_unspecified());
    assert!(!cfg.hub.accept_new_peers);
    assert!(cfg.clipboard.sync_text);
    assert!(cfg.clipboard.sync_image);
    assert!(cfg.input.enabled);
    assert_eq!(cfg.role.kind, RoleKind::Unconfigured);
    assert!(!cfg.node.name.is_empty());
}

#[test]
fn hostname_fallback_and_history_default() {
    assert_eq!(Config::with_hostname(None).node.name, "borderless");
    assert_eq!(Config::with_hostname(Some(String::new())).node.name, "borderless");
    assert_eq!(Config::with_hostname(Some("desk".into())).node.name, "desk");
    assert_eq!(Config::with_hostname(None).clipboard.history_size, 50);
    assert!(!BindIp::V4(0x7f00_0001).is_unspecified());
    assert!(BindIp::V6(0).is_unspecified());
}

#[test]
fn connect_resolution() {
    let mut cfg = Config::with_hostname(None);
    assert_eq!(plan_connect(&mut cfg, None, None).unwrap_err(), ConnectError::NoServerAddress);
    assert_eq!(cfg.role.kind, RoleKind::Unconfigured);
    let p = plan_connect(&mut cfg, Some("hub.lan:38437".into()), None).unwrap();
    assert_eq!(p.server_addr, "hub.lan:38437");
    assert!(p.expected_server_id.is_none());
    assert!(p.changed);
    assert_eq!(cfg.role.kind, RoleKind::Spoke);
    assert_eq!(cfg.client.server_addr.as_deref(), Some("hub.lan:38437"));
    let p2 = plan_connect(&mut cfg, None, None).unwrap();
    assert_eq!(p2.server_addr, "hub.lan:38437");
    assert!(!p2.changed);
    let p3 = plan_connect(&mut cfg, None, Some("ab".into())).unwrap();
    assert_eq!(p3.expected_server_id.as_deref(), Some("ab"));
    assert_eq!(cfg.client.expected_server_id.as_deref(), Some("ab"));
    assert!(cfg.ensure_role(RoleKind::Hub));
    assert!(!cfg.ensure_role(RoleKind::Hub));
}

fn n(b: u8) -> NodeId {
    NodeId([b; 16])
}

#[test]
fn hub_relays_accepted_clipboard_and_drops_input() {
    let mut hub = Engine::new(n(1), 8);
    let store = LazyStore::new();
    let snap = ClipboardSnapshot { version: 3, origin: n(2), created_unix_ms: 0, items: vec![ClipItem::Text("x".into())] };
    match hub_on_frame(&mut hub, &store, WireFrame::Clipboard(snap.clone())) {
        HubAction::ApplyAndRelay(s) => assert_eq!(s, snap),
        _ => panic!("expected relay"),
    }
    assert!(matches!(hub_on_frame(&mut hub, &store, WireFrame::Clipboard(snap)), HubAction::Ignore));
    let ev = InputEvent::Scroll { dx: 0, dy: 1 };
    assert!(matches!(hub_on_frame(&mut hub, &store, WireFrame::Input(ev)), HubAction::DropInput));
}

#[test]
fn hub_answers_fetches() {
    let mut hub = Engine::new(n(1), 8);
    let mut store = LazyStore::new();
    let h = store.insert(vec![1, 2, 3]);
    match hub_on_frame(&mut hub, &store, WireFrame::FetchRequest { hash: h }) {
        HubAction::Reply(frames) => {
            assert_eq!(frames, vec![WireFrame::FetchResponse { hash: h, chunk_idx: 0, total: 1, bytes: vec![1, 2, 3] }])
        }
        _ => panic!("expected reply"),
    }
    match hub_on_frame(&mut hub, &store, WireFrame::FetchRequest { hash: [0; 32] }) {
        HubAction::Reply(frames) => assert_eq!(frames, vec![WireFrame::FetchMiss { hash: [0; 32] }]),
        _ => panic!("expected miss"),
    }
}

#[test]
fn spoke_applies_emits_and_misses() {
    let mut spoke = Engine::new(n(2), 8);
    let snap = ClipboardSnapshot { version: 1, origin: n(1), created_unix_ms: 0, items: vec![ClipItem::Text("y".into())] };
    assert!(matches!(spoke_on_frame(&mut spoke, WireFrame::Clipboard(snap), true), SpokeAction::Apply(_)));
    let ev = InputEvent::Scroll { dx: 1, dy: 0 };
    assert!(matches!(spoke_on_frame(&mut spoke, WireFrame::Input(ev), true), SpokeAction::Emit(e) if e == ev));
    assert!(matches!(spoke_on_frame(&mut spoke, WireFrame::Input(ev), false), SpokeAction::Ignore));
    match spoke_on_frame(&mut spoke, WireFrame::FetchRequest { hash: [5; 32] }, true) {
        SpokeAction::Send(f) => assert_eq!(f, WireFrame::FetchMiss { hash: [5; 32] }),
        _ => panic!("expected miss"),
    }
}

#[test]
fn watch_produces_clipboard_frames() {
    let mut e = Engine::new(n(1), 8);
    match watch_to_frame(&mut e, "copied".into()) {
        WireFrame::Clipboard(s) => {
            assert_eq!(s.version, 1);
            assert_eq!(s.origin, n(1));
            assert_eq!(s.items, vec![ClipItem::Text("copied".into())]);
        }
        _ => panic!("expected clipboard frame"),
    }
}

#[test]
fn broadcast_skips_the_sender() {
    let peers = vec![n(1), n(2), n(3)];
    assert_eq!(broadcast_targets(&peers, Some(n(2))), vec![n(1), n(3)]);
    assert_eq!(broadcast_targets(&peers, None), peers);
    assert_eq!(broadcast_targets(&peers, Some(n(9))), peers);
}

#[test]
fn backoff_schedule() {
    let mut idx = 0usize;
    let mut delays = Vec::new();
    for _ in 0..7 {
        delays.push(backoff_delay_secs(idx));
        idx = next_backoff_index(idx, true);
    }
    assert_eq!(delays, vec![1, 2, 5, 15, 60, 60, 60]);
    assert_eq!(next_backoff_index(idx, false), 0);
}

#[test]
fn pubkey_parsing() {
    assert_eq!(parse_pubkey(&"0a".repeat(32)), Ok([0x0au8; 32]));
    assert_eq!(parse_pubkey("0a0b"), Err(PubkeyError::WrongLength { len: 2 }));
    assert_eq!(parse_pubkey("xyz"), Err(PubkeyError::NotHex));
}

#[test]
fn ipv4_addresses_first() {
    assert_eq!(ipv4_first_order(&[false, true, false, true]), vec![1, 3, 0, 2]);
    assert_eq!(ipv4_first_order(&[]), Vec::<usize>::new());
}

#[test]
fn report_plan_per_role() {
    assert_eq!(
        report_plan(RoleKind::Hub),
        vec![ReportItem::Binary, ReportItem::Platform, ReportItem::HubBind, ReportItem::FirewallHint]
    );
    assert_eq!(
        report_plan(RoleKind::Spoke),
        vec![ReportItem::Binary, ReportItem::Platform, ReportItem::SpokeAddr, ReportItem::SpokeReachability]
    );
    assert_eq!(report_plan(RoleKind::Unconfigured), vec![ReportItem::Binary, ReportItem::Platform, ReportItem::RoleUnset]);
}
