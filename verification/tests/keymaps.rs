use borderless::hid::HidUsage;
use borderless::keymap_macos::{hid_to_mac, mac_to_hid};
use borderless::keymap_windows::{hid_to_win, vk_to_hid};
use borderless::keymap_x11::{hid_to_keysym, keysym_to_hid};

const MODIFIERS: [u16; 8] = [
    HidUsage::LCTRL,
    HidUsage::LSHIFT,
    HidUsage::LALT,
    HidUsage::LGUI,
    HidUsage::RCTRL,
    HidUsage::RSHIFT,
    HidUsage::RALT,
    HidUsage::RGUI,
];

#[test]
fn keymap_alpha_round_trip() {
    for usage in 0x04..=0x1D {
        let kc = hid_to_mac(HidUsage(usage)).unwrap();
        let back = mac_to_hid(kc).unwrap();
        assert_eq!(back, HidUsage(usage));
    }
    for usage in 0x04..=0x1D {
        let (vk, _, _) = hid_to_win(HidUsage(usage)).unwrap();
        let back = vk_to_hid(vk).unwrap();
        assert_eq!(back, HidUsage(usage));
    }
}

#[test]
fn keymap_modifier_round_trip() {
    for &m in &MODIFIERS {
        let kc = hid_to_mac(HidUsage(m)).unwrap();
        assert_eq!(mac_to_hid(kc).unwrap(), HidUsage(m));
    }
    for &m in &MODIFIERS {
        let k = hid_to_keysym(HidUsage(m)).unwrap();
        assert_eq!(keysym_to_hid(k).unwrap(), HidUsage(m));
    }
}

#[test]
fn digit_round_trip() {
    for usage in 0x1E..=0x27 {
        let (vk, _, _) = hid_to_win(HidUsage(usage)).unwrap();
        let back = vk_to_hid(vk).unwrap();
        assert_eq!(back, HidUsage(usage));
    }
}

#[test]
fn extended_keys_set_bit() {
    for k in [
        HidUsage::INSERT,
        HidUsage::HOME,
        HidUsage::PAGE_UP,
        HidUsage::DELETE,
        HidUsage::END,
        HidUsage::PAGE_DOWN,
        HidUsage::RIGHT,
        HidUsage::LEFT,
        HidUsage::DOWN,
        HidUsage::UP,
        HidUsage::RCTRL,
        HidUsage::RALT,
        HidUsage::LGUI,
        HidUsage::RGUI,
        HidUsage::KP_ENTER,
    ] {
        let (_, _, ext) = hid_to_win(HidUsage(k)).unwrap();
        assert!(ext, "{k:?} should be extended");
    }
}

#[test]
fn alphabetic_round_trip() {
    for usage in 0x04..=0x1D {
        let k = hid_to_keysym(HidUsage(usage)).unwrap();
        let back = keysym_to_hid(k).unwrap();
        assert_eq!(back, HidUsage(usage));
    }
}

#[test]
fn digits_round_trip() {
    for usage in 0x1E..=0x27 {
        let k = hid_to_keysym(HidUsage(usage)).unwrap();
        let back = keysym_to_hid(k).unwrap();
        assert_eq!(back, HidUsage(usage));
    }
}

#[test]
fn keysym_exact_values() {
    assert_eq!(hid_to_keysym(HidUsage(HidUsage::KEY_A)), Some(0x61));
    assert_eq!(hid_to_keysym(HidUsage(HidUsage::KEY_0)), Some(0x30));
    assert_eq!(hid_to_keysym(HidUsage(HidUsage::KEY_1)), Some(0x31));
    assert_eq!(keysym_to_hid(0x41), Some(HidUsage(HidUsage::KEY_A)));
    assert_eq!(hid_to_keysym(HidUsage(0x00)), None);
    assert_eq!(keysym_to_hid(0xdead_beef), None);
}

#[test]
fn windows_kp_enter_shares_the_enter_key() {
    let (vk, scan, ext) = hid_to_win(HidUsage(HidUsage::KP_ENTER)).unwrap();
    let (vk2, scan2, ext2) = hid_to_win(HidUsage(HidUsage::ENTER)).unwrap();
    assert_eq!((vk, scan), (vk2, scan2));
    assert!(ext && !ext2);
    assert_eq!(vk_to_hid(vk), Some(HidUsage(HidUsage::ENTER)));
    assert_eq!(hid_to_win(HidUsage(0xE8)), None);
}

#[test]
fn mac_unknown_codes_are_none() {
    assert_eq!(hid_to_mac(HidUsage(0x00)), None);
    assert_eq!(mac_to_hid(0xFFFF), None);
    assert_eq!(hid_to_mac(HidUsage(HidUsage::KEY_A)), Some(0x00));
}
