use borderless::hid::{HidUsage, ModifierMask};
use borderless::input::{Button, InputEvent};
use borderless::node::NodeId;
use borderless::pal::{
    clipboard_text, macos_capture_start, mouse_event_type, poll_change, CaptureMode, MacMouseButton, MacMouseEvent,
    PalError,
};
use borderless::snapshot::{ClipItem, ClipboardSnapshot, ImageFormat, LazyPayload};
use borderless::win32::{
    button_flags, keyboard_hook_event, mouse_hook_event, WinInput, WindowsEmit, KEYEVENTF_EXTENDEDKEY,
    KEYEVENTF_KEYUP, KEYEVENTF_SCANCODE, MOUSEEVENTF_HWHEEL, MOUSEEVENTF_MOVE, MOUSEEVENTF_WHEEL, MOUSEEVENTF_XDOWN,
    WM_KEYDOWN, WM_MOUSEMOVE, WM_MOUSEWHEEL, WM_SYSKEYUP, WM_XBUTTONUP, XBUTTON1, XBUTTON2,
};
use borderless::x11::{button_event, button_to_code, emit_plan, key_event, mask_iter, motion_event, KeysymTable, X11Fake};

#[test]
fn keysym_table_first_wins() {
    // Keycodes 8..=10, two keysyms each: 8 -> a/A, 9 -> b/a, 10 -> 0/0.
    let keysyms = [0x61, 0x41, 0x62, 0x61, 0, 0];
    let t = KeysymTable::build(&keysyms, 2, 8, 10);
    assert_eq!(t.keycode(0x61), Some(8));
    assert_eq!(t.keycode(0x41), Some(8));
    assert_eq!(t.keycode(0x62), Some(9));
    assert_eq!(t.keycode(0), None);
    assert_eq!(t.hid_to_keycode(HidUsage(HidUsage::KEY_B)), Some(9));
    assert_eq!(t.hid_to_keycode(HidUsage(HidUsage::KEY_C)), None);
}

#[test]
fn x11_emit_plans() {
    let keysyms = [0x61, 0x41];
    let t = KeysymTable::build(&keysyms, 2, 38, 38);
    let key = InputEvent::Key { code: HidUsage(HidUsage::KEY_A), pressed: true, modifiers: ModifierMask::empty() };
    assert_eq!(emit_plan(key, &t), vec![X11Fake::Key { keycode: 38, pressed: true }]);
    let unknown = InputEvent::Key { code: HidUsage(HidUsage::KEY_Z), pressed: true, modifiers: ModifierMask::empty() };
    assert_eq!(emit_plan(unknown, &t), vec![]);
    assert_eq!(
        emit_plan(InputEvent::MouseMove { dx: 70000, dy: -3, ts: 0 }, &t),
        vec![X11Fake::Motion { relative: true, x: 70000i32 as i16, y: -3 }]
    );
    assert_eq!(
        emit_plan(InputEvent::Scroll { dx: 2, dy: -3 }, &t),
        vec![X11Fake::Clicks { code: 4, times: 3 }, X11Fake::Clicks { code: 7, times: 2 }]
    );
    assert_eq!(
        emit_plan(InputEvent::MouseButton { btn: Button::Back, pressed: false }, &t),
        vec![X11Fake::Button { code: 8, pressed: false }]
    );
    assert_eq!(emit_plan(InputEvent::Leave { to: NodeId([0; 16]) }, &t), vec![]);
    assert_eq!(button_to_code(Button::Other(12)), 12);
}

#[test]
fn x11_raw_buttons() {
    assert_eq!(button_event(1, true), InputEvent::MouseButton { btn: Button::Left, pressed: true });
    assert_eq!(button_event(4, true), InputEvent::Scroll { dx: 0, dy: -1 });
    assert_eq!(button_event(7, true), InputEvent::Scroll { dx: 1, dy: 0 });
    assert_eq!(button_event(4, false), InputEvent::MouseButton { btn: Button::Other(4), pressed: false });
    assert_eq!(button_event(9, false), InputEvent::MouseButton { btn: Button::Forward, pressed: false });
    assert_eq!(button_event(300, true), InputEvent::MouseButton { btn: Button::Other(44), pressed: true });
}

#[test]
fn x11_raw_keys_track_modifiers() {
    // Keycode 50 -> Shift_L (0xffe1), keycode 38 -> a; one keysym per keycode from 8.
    let mut keysyms = vec![0u32; 60];
    keysyms[50 - 8] = 0xffe1;
    keysyms[38 - 8] = 0x61;
    let mut mods = ModifierMask::empty();
    let e = key_event(50, true, &keysyms, 1, 8, &mut mods).unwrap();
    assert_eq!(mods, ModifierMask::from_bits(ModifierMask::LSHIFT));
    assert_eq!(e, InputEvent::Key { code: HidUsage(HidUsage::LSHIFT), pressed: true, modifiers: mods });
    let a = key_event(38, true, &keysyms, 1, 8, &mut mods).unwrap();
    assert_eq!(a, InputEvent::Key { code: HidUsage(HidUsage::KEY_A), pressed: true, modifiers: mods });
    assert_eq!(key_event(5, true, &keysyms, 1, 8, &mut mods), None);
    assert_eq!(key_event(200, true, &keysyms, 1, 8, &mut mods), None);
    key_event(50, false, &keysyms, 1, 8, &mut mods).unwrap();
    assert!(mods.is_empty());
}

#[test]
fn x11_valuator_mask_pairs() {
    // Bits 0, 1 and 33 set; only two values supplied.
    let pairs = mask_iter(&[0b11, 0b10], &[5, -7]);
    assert_eq!(pairs, vec![(0, 5), (1, -7)]);
    assert_eq!(mask_iter(&[0b101], &[1, 2, 3]), vec![(0, 1), (2, 2)]);
    assert_eq!(motion_event(&[0b11], &[5, -7], 99), Some(InputEvent::MouseMove { dx: 5, dy: -7, ts: 99 }));
    assert_eq!(motion_event(&[0b10], &[4], 1), Some(InputEvent::MouseMove { dx: 0, dy: 4, ts: 1 }));
    assert_eq!(motion_event(&[0b100], &[4], 1), None);
    assert_eq!(motion_event(&[0b11], &[0, 0], 1), None);
}

#[test]
fn windows_emit_plans() {
    let e = WindowsEmit::new();
    assert_eq!(
        e.plan(InputEvent::Scroll { dx: -1, dy: 2 }),
        vec![
            WinInput::Mouse { dx: 0, dy: 0, flags: MOUSEEVENTF_WHEEL, data: -240 },
            WinInput::Mouse { dx: 0, dy: 0, flags: MOUSEEVENTF_HWHEEL, data: -120 },
        ]
    );
    assert_eq!(
        e.plan(InputEvent::MouseMove { dx: 3, dy: 4, ts: 0 }),
        vec![WinInput::Mouse { dx: 3, dy: 4, flags: MOUSEEVENTF_MOVE, data: 0 }]
    );
    let plan = e.plan(InputEvent::Key { code: HidUsage(HidUsage::RCTRL), pressed: false, modifiers: ModifierMask::empty() });
    match plan.as_slice() {
        [WinInput::Key { flags, .. }] => {
            assert_eq!(*flags, KEYEVENTF_SCANCODE | KEYEVENTF_KEYUP | KEYEVENTF_EXTENDEDKEY)
        }
        _ => panic!("expected one key record"),
    }
    assert_eq!(button_flags(Button::Back, true), (MOUSEEVENTF_XDOWN, XBUTTON1 as i32));
    assert_eq!(button_flags(Button::Other(7), true), (MOUSEEVENTF_MOVE, 0));
}

#[test]
fn windows_hooks() {
    let mut mods = ModifierMask::empty();
    let shift_vk = 0xA0; // VK_LSHIFT
    let e = keyboard_hook_event(WM_KEYDOWN, shift_vk, &mut mods).unwrap();
    assert_eq!(e, InputEvent::Key { code: HidUsage(HidUsage::LSHIFT), pressed: true, modifiers: mods });
    assert!(!mods.is_empty());
    keyboard_hook_event(WM_SYSKEYUP, shift_vk, &mut mods).unwrap();
    assert!(mods.is_empty());
    assert_eq!(keyboard_hook_event(0x0102, shift_vk, &mut mods), None);

    let mut last = None;
    assert_eq!(mouse_hook_event(WM_MOUSEMOVE, 10, 10, 0, &mut last, 1), None);
    assert_eq!(last, Some((10, 10)));
    assert_eq!(
        mouse_hook_event(WM_MOUSEMOVE, 13, 6, 0, &mut last, 2),
        Some(InputEvent::MouseMove { dx: 3, dy: -4, ts: 2 })
    );
    let down_one = (((-120i16) as u16 as u32) << 16) as u32;
    assert_eq!(mouse_hook_event(WM_MOUSEWHEEL, 0, 0, down_one, &mut last, 3), Some(InputEvent::Scroll { dx: 0, dy: 1 }));
    assert_eq!(mouse_hook_event(WM_MOUSEWHEEL, 0, 0, 119 << 16, &mut last, 3), Some(InputEvent::Scroll { dx: 0, dy: 0 }));
    assert_eq!(
        mouse_hook_event(WM_XBUTTONUP, 0, 0, (XBUTTON2 as u32) << 16, &mut last, 3),
        Some(InputEvent::MouseButton { btn: Button::Forward, pressed: false })
    );
    assert_eq!(last, Some((13, 6)));
}

#[test]
fn mac_button_events() {
    assert_eq!(mouse_event_type(Button::Left, true), (MacMouseEvent::LeftMouseDown, MacMouseButton::Left));
    assert_eq!(mouse_event_type(Button::Middle, false), (MacMouseEvent::OtherMouseUp, MacMouseButton::Center));
    assert_eq!(mouse_event_type(Button::Back, true), (MacMouseEvent::OtherMouseDown, MacMouseButton::Center));
    assert!(macos_capture_start(true).is_ok());
    match macos_capture_start(false) {
        Err(PalError::PermissionRequired(m)) => assert!(m.contains("Accessibility")),
        _ => panic!("expected a permission error"),
    }
    assert_ne!(CaptureMode::Grab, CaptureMode::Listen);
}

#[test]
fn clipboard_text_choice_and_polling() {
    let snap = ClipboardSnapshot {
        version: 1,
        origin: NodeId([0; 16]),
        created_unix_ms: 0,
        items: vec![
            ClipItem::Image { format: ImageFormat::Png, hash: [0; 32], data: LazyPayload::Inline(vec![]) },
            ClipItem::Html { html: "<b>x</b>".into(), plain_fallback: "x".into() },
            ClipItem::Text("later".into()),
        ],
    };
    assert_eq!(clipboard_text(&snap), Some("x".to_string()));
    let mut last = None;
    assert_eq!(poll_change(&mut last, Some("a".into())), Some("a".to_string()));
    assert_eq!(poll_change(&mut last, Some("a".into())), None);
    assert_eq!(poll_change(&mut last, None), None);
    assert_eq!(last.as_deref(), Some("a"));
    assert_eq!(poll_change(&mut last, Some("b".into())), Some("b".to_string()));
}
