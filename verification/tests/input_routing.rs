use borderless::hid::{HidUsage, ModifierMask};
use borderless::input::InputEvent;
use borderless::layout::{Edge, Layout, Screen};
use borderless::modifier::ModifierState;
use borderless::node::NodeId;
use borderless::router::{Routed, Router};

fn n(byte: u8) -> NodeId {
    NodeId([byte; 16])
}

fn two_node_horizontal() -> (Layout, NodeId, NodeId) {
    let a = n(1);
    let b = n(2);
    let mut l = Layout::new();
    l.set_screen(Screen { node: a, width: 1920, height: 1080 });
    l.set_screen(Screen { node: b, width: 1920, height: 1080 });
    l.connect(a, Edge::Right, b);
    (l, a, b)
}

#[test]
fn edge_opposite() {
    assert_eq!(Edge::Left.opposite(), Edge::Right);
    assert_eq!(Edge::Top.opposite(), Edge::Bottom);
}

#[test]
fn opposite_is_an_involution() {
    for e in [Edge::Left, Edge::Right, Edge::Top, Edge::Bottom] {
        assert_eq!(e.opposite().opposite(), e);
        assert_ne!(e.opposite(), e);
    }
}

#[test]
fn connect_is_symmetric() {
    let a = n(1);
    let b = n(2);
    let mut l = Layout::new();
    l.set_screen(Screen { node: a, width: 1920, height: 1080 });
    l.set_screen(Screen { node: b, width: 1920, height: 1080 });
    l.connect(a, Edge::Right, b);
    assert_eq!(l.neighbor(a, Edge::Right), Some(b));
    assert_eq!(l.neighbor(b, Edge::Left), Some(a));
    assert_eq!(l.neighbor(a, Edge::Top), None);
}

#[test]
fn layout_screens_are_replaced_by_node() {
    let mut l = Layout::new();
    assert!(l.is_empty());
    l.set_screen(Screen { node: n(1), width: 800, height: 600 });
    l.set_screen(Screen { node: n(1), width: 1024, height: 768 });
    assert!(!l.is_empty());
    assert_eq!(l.screen(n(1)).map(|s| s.width), Some(1024));
    assert!(l.screen(n(2)).is_none());
}

#[test]
fn shift_press_release() {
    let mut s = ModifierState::new();
    assert!(s.update(HidUsage(HidUsage::LSHIFT), true));
    assert_eq!(s.mask(), ModifierMask::from_bits(ModifierMask::LSHIFT));
    assert!(!s.update(HidUsage(HidUsage::KEY_A), true), "a is not a modifier");
    assert!(s.update(HidUsage(HidUsage::LSHIFT), false));
    assert_eq!(s.mask(), ModifierMask::empty());
}

#[test]
fn shift_plus_ctrl_combine() {
    let mut s = ModifierState::new();
    s.update(HidUsage(HidUsage::LSHIFT), true);
    s.update(HidUsage(HidUsage::LCTRL), true);
    assert_eq!(s.mask(), ModifierMask::from_bits(ModifierMask::LSHIFT | ModifierMask::LCTRL));
    s.update(HidUsage(HidUsage::LSHIFT), false);
    assert_eq!(s.mask(), ModifierMask::from_bits(ModifierMask::LCTRL));
}

#[test]
fn modifier_mask_set_operations() {
    let mut m = ModifierMask::empty();
    assert!(m.is_empty());
    m.insert(ModifierMask::RALT);
    assert!(m.contains(ModifierMask::RALT));
    assert!(!m.contains(ModifierMask::LALT));
    let u = m.union(ModifierMask::LGUI);
    assert_eq!(u.bits(), ModifierMask::RALT | ModifierMask::LGUI);
    m.remove(ModifierMask::RALT);
    assert!(m.is_empty());
    let mut s = ModifierState::new();
    s.update(HidUsage(HidUsage::RSHIFT), true);
    s.clear();
    assert_eq!(s.mask(), ModifierMask::empty());
}

#[test]
fn move_inside_stays_local() {
    let (layout, a, _b) = two_node_horizontal();
    let mut r = Router::new(a, 1920, 1080);
    let out = r.on_mouse_move(10, 0, 0, &layout);
    assert_eq!(out.len(), 1);
    assert!(matches!(out[0], Routed::Local(_)));
}

#[test]
fn cross_right_edge_emits_leave_and_enter() {
    let (layout, a, b) = two_node_horizontal();
    let mut r = Router::new(a, 1920, 1080);
    r.x = 1919;
    let out = r.on_mouse_move(50, 0, 0, &layout);
    assert_eq!(out.len(), 2);
    match &out[0] {
        Routed::Remote { target, event: InputEvent::Leave { to } } => {
            assert_eq!(*target, a);
            assert_eq!(*to, b);
        }
        _ => panic!("expected Leave to {b:?}"),
    }
    match &out[1] {
        Routed::Remote { target, event: InputEvent::Enter { from, modifiers: _ } } => {
            assert_eq!(*target, b);
            assert_eq!(*from, a);
        }
        _ => panic!("expected Enter from {a:?}"),
    }
    assert_eq!(r.active, b);
}

#[test]
fn modifiers_carry_through_enter() {
    let (layout, a, _b) = two_node_horizontal();
    let mut r = Router::new(a, 1920, 1080);
    r.modifiers.update(HidUsage(HidUsage::LSHIFT), true);
    r.x = 1919;
    let out = r.on_mouse_move(50, 0, 0, &layout);
    if let Routed::Remote { event: InputEvent::Enter { modifiers, .. }, .. } = &out[1] {
        assert_eq!(*modifiers, ModifierMask::from_bits(ModifierMask::LSHIFT));
    } else {
        panic!("expected Enter");
    }
}

#[test]
fn key_event_forwarded_when_active_is_remote() {
    let (_layout, a, b) = two_node_horizontal();
    let mut r = Router::new(a, 1920, 1080);
    r.active = b;
    let key = InputEvent::Key { code: HidUsage(HidUsage::KEY_A), pressed: true, modifiers: ModifierMask::empty() };
    match r.on_key(key) {
        Routed::Remote { target, event } => {
            assert_eq!(target, b);
            assert_eq!(event, key);
        }
        other => panic!("expected forwarding, got {other:?}"),
    }
}

#[test]
fn key_event_local_when_active_is_self() {
    let (_layout, a, _b) = two_node_horizontal();
    let mut r = Router::new(a, 1920, 1080);
    let key = InputEvent::Key { code: HidUsage(HidUsage::ENTER), pressed: false, modifiers: ModifierMask::empty() };
    assert!(matches!(r.on_key(key), Routed::Local(_)));
}

#[test]
fn key_press_release_updates_modifier_state_through_router() {
    let (_layout, a, _b) = two_node_horizontal();
    let mut r = Router::new(a, 1920, 1080);
    r.on_key(InputEvent::Key { code: HidUsage(HidUsage::LCTRL), pressed: true, modifiers: ModifierMask::empty() });
    assert_eq!(r.modifiers.mask(), ModifierMask::from_bits(ModifierMask::LCTRL));
    r.on_key(InputEvent::Key {
        code: HidUsage(HidUsage::LCTRL),
        pressed: false,
        modifiers: ModifierMask::from_bits(ModifierMask::LCTRL),
    });
    assert_eq!(r.modifiers.mask(), ModifierMask::empty());
}

#[test]
fn cross_into_unmapped_edge_clamps_locally() {
    let (layout, a, _b) = two_node_horizontal();
    let mut r = Router::new(a, 1920, 1080);
    r.x = 0;
    let out = r.on_mouse_move(-50, 0, 0, &layout);
    assert_eq!(out.len(), 1);
    assert!(matches!(out[0], Routed::Local(_)));
    assert_eq!(r.x, 0, "cursor should clamp at the left edge");
    assert_eq!(r.active, a, "still local");
}

#[test]
fn after_crossing_moves_forward_to_remote() {
    let (layout, a, b) = two_node_horizontal();
    let mut r = Router::new(a, 1920, 1080);
    r.x = 1919;
    let _ = r.on_mouse_move(50, 0, 0, &layout);
    let out = r.on_mouse_move(5, 5, 1, &layout);
    assert_eq!(out.len(), 1);
    match &out[0] {
        Routed::Remote { target, event: InputEvent::MouseMove { dx, dy, .. } } => {
            assert_eq!(*target, b);
            assert_eq!(*dx, 5);
            assert_eq!(*dy, 5);
        }
        _ => panic!("expected forwarded MouseMove"),
    }
}

#[test]
fn router_starts_centered_and_local() {
    let r = Router::new(n(3), 1920, 1080);
    assert_eq!((r.x, r.y), (960, 540));
    assert_eq!(r.active, n(3));
    assert_eq!(r.modifiers.mask(), ModifierMask::empty());
}

#[test]
fn crossing_recenters_local_cursor() {
    let (layout, a, _b) = two_node_horizontal();
    let mut r = Router::new(a, 1920, 1080);
    r.x = 1919;
    let _ = r.on_mouse_move(50, 0, 0, &layout);
    assert_eq!((r.x, r.y), (960, 540));
}
