//! HID usage to macOS virtual keycode (`kVK_*`) lookup, both ways.
use vstd::prelude::*;
use crate::hid::{spec_hid_arrow, Arrow, HidUsage};

verus! {

/// HID usage to macOS CGKeyCode.
pub open spec fn spec_hid_to_mac(usage: u16) -> Option<u16> {
    match usage {
            0x04 => Some(0x00), // KEY_A
            0x05 => Some(0x0B), // KEY_B
            0x06 => Some(0x08), // KEY_C
            0x07 => Some(0x02), // KEY_D
            0x08 => Some(0x0E), // KEY_E
            0x09 => Some(0x03), // KEY_F
            0x0a => Some(0x05), // KEY_G
            0x0b => Some(0x04), // KEY_H
            0x0c => Some(0x22), // KEY_I
            0x0d => Some(0x26), // KEY_J
            0x0e => Some(0x28), // KEY_K
            0x0f => Some(0x25), // KEY_L
            0x10 => Some(0x2E), // KEY_M
            0x11 => Some(0x2D), // KEY_N
            0x12 => Some(0x1F), // KEY_O
            0x13 => Some(0x23), // KEY_P
            0x14 => Some(0x0C), // KEY_Q
            0x15 => Some(0x0F), // KEY_R
            0x16 => Some(0x01), // KEY_S
            0x17 => Some(0x11), // KEY_T
            0x18 => Some(0x20), // KEY_U
            0x19 => Some(0x09), // KEY_V
            0x1a => Some(0x0D), // KEY_W
            0x1b => Some(0x07), // KEY_X
            0x1c => Some(0x10), // KEY_Y
            0x1d => Some(0x06), // KEY_Z
            0x1e => Some(0x12), // KEY_1
            0x1f => Some(0x13), // KEY_2
            0x20 => Some(0x14), // KEY_3
            0x21 => Some(0x15), // KEY_4
            0x22 => Some(0x17), // KEY_5
            0x23 => Some(0x16), // KEY_6
            0x24 => Some(0x1A), // KEY_7
            0x25 => Some(0x1C), // KEY_8
            0x26 => Some(0x19), // KEY_9
            0x27 => Some(0x1D), // KEY_0
            0x28 => Some(0x24), // ENTER
            0x29 => Some(0x35), // ESCAPE
            0x2a => Some(0x33), // BACKSPACE
            0x2b => Some(0x30), // TAB
            0x2c => Some(0x31), // SPACE
            0x2d => Some(0x1B), // MINUS
            0x2e => Some(0x18), // EQUAL
            0x2f => Some(0x21), // LEFT_BRACKET
            0x30 => Some(0x1E), // RIGHT_BRACKET
            0x31 => Some(0x2A), // BACKSLASH
            0x33 => Some(0x29), // SEMICOLON
            0x34 => Some(0x27), // APOSTROPHE
            0x35 => Some(0x32), // GRAVE
            0x36 => Some(0x2B), // COMMA
            0x37 => Some(0x2F), // PERIOD
            0x38 => Some(0x2C), // SLASH
            0x39 => Some(0x39), // CAPS_LOCK
            0x3a => Some(0x7A), // F1
            0x3b => Some(0x78), // F2
            0x3c => Some(0x63), // F3
            0x3d => Some(0x76), // F4
            0x3e => Some(0x60), // F5
            0x3f => Some(0x61), // F6
            0x40 => Some(0x62), // F7
            0x41 => Some(0x64), // F8
            0x42 => Some(0x65), // F9
            0x43 => Some(0x6D), // F10
            0x44 => Some(0x67), // F11
            0x45 => Some(0x6F), // F12
            0x49 => Some(0x72), // INSERT
            0x4a => Some(0x73), // HOME
            0x4b => Some(0x74), // PAGE_UP
            0x4c => Some(0x75), // DELETE
            0x4d => Some(0x77), // END
            0x4e => Some(0x79), // PAGE_DOWN
            0x4f => Some(0x7C), // RIGHT
            0x50 => Some(0x7B), // LEFT
            0x51 => Some(0x7D), // DOWN
            0x52 => Some(0x7E), // UP
            0xe0 => Some(0x3B), // LCTRL
            0xe1 => Some(0x38), // LSHIFT
            0xe2 => Some(0x3A), // LALT
            0xe3 => Some(0x37), // LGUI
            0xe4 => Some(0x3E), // RCTRL
            0xe5 => Some(0x3C), // RSHIFT
            0xe6 => Some(0x3D), // RALT
            0xe7 => Some(0x36), // RGUI
            _ => None,
    }
}

/// macOS CGKeyCode to HID usage.
pub open spec fn spec_mac_to_hid(kc: u16) -> Option<u16> {
    match kc {
            0x00 => Some(0x04), // KEY_A
            0x0b => Some(0x05), // KEY_B
            0x08 => Some(0x06), // KEY_C
            0x02 => Some(0x07), // KEY_D
            0x0e => Some(0x08), // KEY_E
            0x03 => Some(0x09), // KEY_F
            0x05 => Some(0x0a), // KEY_G
            0x04 => Some(0x0b), // KEY_H
            0x22 => Some(0x0c), // KEY_I
            0x26 => Some(0x0d), // KEY_J
            0x28 => Some(0x0e), // KEY_K
            0x25 => Some(0x0f), // KEY_L
            0x2e => Some(0x10), // KEY_M
            0x2d => Some(0x11), // KEY_N
            0x1f => Some(0x12), // KEY_O
            0x23 => Some(0x13), // KEY_P
            0x0c => Some(0x14), // KEY_Q
            0x0f => Some(0x15), // KEY_R
            0x01 => Some(0x16), // KEY_S
            0x11 => Some(0x17), // KEY_T
            0x20 => Some(0x18), // KEY_U
            0x09 => Some(0x19), // KEY_V
            0x0d => Some(0x1a), // KEY_W
            0x07 => Some(0x1b), // KEY_X
            0x10 => Some(0x1c), // KEY_Y
            0x06 => Some(0x1d), // KEY_Z
            0x12 => Some(0x1e), // KEY_1
            0x13 => Some(0x1f), // KEY_2
            0x14 => Some(0x20), // KEY_3
            0x15 => Some(0x21), // KEY_4
            0x17 => Some(0x22), // KEY_5
            0x16 => Some(0x23), // KEY_6
            0x1a => Some(0x24), // KEY_7
            0x1c => Some(0x25), // KEY_8
            0x19 => Some(0x26), // KEY_9
            0x1d => Some(0x27), // KEY_0
            0x24 => Some(0x28), // ENTER
            0x35 => Some(0x29), // ESCAPE
            0x33 => Some(0x2a), // BACKSPACE
            0x30 => Some(0x2b), // TAB
            0x31 => Some(0x2c), // SPACE
            0x1b => Some(0x2d), // MINUS
            0x18 => Some(0x2e), // EQUAL
            0x21 => Some(0x2f), // LEFT_BRACKET
            0x1e => Some(0x30), // RIGHT_BRACKET
            0x2a => Some(0x31), // BACKSLASH
            0x29 => Some(0x33), // SEMICOLON
            0x27 => Some(0x34), // APOSTROPHE
            0x32 => Some(0x35), // GRAVE
            0x2b => Some(0x36), // COMMA
            0x2f => Some(0x37), // PERIOD
            0x2c => Some(0x38), // SLASH
            0x39 => Some(0x39), // CAPS_LOCK
            0x7a => Some(0x3a), // F1
            0x78 => Some(0x3b), // F2
            0x63 => Some(0x3c), // F3
            0x76 => Some(0x3d), // F4
            0x60 => Some(0x3e), // F5
            0x61 => Some(0x3f), // F6
            0x62 => Some(0x40), // F7
            0x64 => Some(0x41), // F8
            0x65 => Some(0x42), // F9
            0x6d => Some(0x43), // F10
            0x67 => Some(0x44), // F11
            0x6f => Some(0x45), // F12
            0x72 => Some(0x49), // INSERT
            0x73 => Some(0x4a), // HOME
            0x74 => Some(0x4b), // PAGE_UP
            0x75 => Some(0x4c), // DELETE
            0x77 => Some(0x4d), // END
            0x79 => Some(0x4e), // PAGE_DOWN
            0x7c => Some(0x4f), // RIGHT
            0x7b => Some(0x50), // LEFT
            0x7d => Some(0x51), // DOWN
            0x7e => Some(0x52), // UP
            0x3b => Some(0xe0), // LCTRL
            0x38 => Some(0xe1), // LSHIFT
            0x3a => Some(0xe2), // LALT
            0x37 => Some(0xe3), // LGUI
            0x3e => Some(0xe4), // RCTRL
            0x3c => Some(0xe5), // RSHIFT
            0x3d => Some(0xe6), // RALT
            0x36 => Some(0xe7), // RGUI
            _ => None,
    }
}

/// Translate a HID usage to a macOS CGKeyCode; `None` for unknown codes.
pub fn hid_to_mac(hid: HidUsage) -> (r: Option<u16>)
    ensures
        r == spec_hid_to_mac(hid.0),
{
    match hid.0 {
        0x04 => Some(0x00),
        0x05 => Some(0x0B),
        0x06 => Some(0x08),
        0x07 => Some(0x02),
        0x08 => Some(0x0E),
        0x09 => Some(0x03),
        0x0a => Some(0x05),
        0x0b => Some(0x04),
        0x0c => Some(0x22),
        0x0d => Some(0x26),
        0x0e => Some(0x28),
        0x0f => Some(0x25),
        0x10 => Some(0x2E),
        0x11 => Some(0x2D),
        0x12 => Some(0x1F),
        0x13 => Some(0x23),
        0x14 => Some(0x0C),
        0x15 => Some(0x0F),
        0x16 => Some(0x01),
        0x17 => Some(0x11),
        0x18 => Some(0x20),
        0x19 => Some(0x09),
        0x1a => Some(0x0D),
        0x1b => Some(0x07),
        0x1c => Some(0x10),
        0x1d => Some(0x06),
        0x1e => Some(0x12),
        0x1f => Some(0x13),
        0x20 => Some(0x14),
        0x21 => Some(0x15),
        0x22 => Some(0x17),
        0x23 => Some(0x16),
        0x24 => Some(0x1A),
        0x25 => Some(0x1C),
        0x26 => Some(0x19),
        0x27 => Some(0x1D),
        0x28 => Some(0x24),
        0x29 => Some(0x35),
        0x2a => Some(0x33),
        0x2b => Some(0x30),
        0x2c => Some(0x31),
        0x2d => Some(0x1B),
        0x2e => Some(0x18),
        0x2f => Some(0x21),
        0x30 => Some(0x1E),
        0x31 => Some(0x2A),
        0x33 => Some(0x29),
        0x34 => Some(0x27),
        0x35 => Some(0x32),
        0x36 => Some(0x2B),
        0x37 => Some(0x2F),
        0x38 => Some(0x2C),
        0x39 => Some(0x39),
        0x3a => Some(0x7A),
        0x3b => Some(0x78),
        0x3c => Some(0x63),
        0x3d => Some(0x76),
        0x3e => Some(0x60),
        0x3f => Some(0x61),
        0x40 => Some(0x62),
        0x41 => Some(0x64),
        0x42 => Some(0x65),
        0x43 => Some(0x6D),
        0x44 => Some(0x67),
        0x45 => Some(0x6F),
        0x49 => Some(0x72),
        0x4a => Some(0x73),
        0x4b => Some(0x74),
        0x4c => Some(0x75),
        0x4d => Some(0x77),
        0x4e => Some(0x79),
        0x4f => Some(0x7C),
        0x50 => Some(0x7B),
        0x51 => Some(0x7D),
        0x52 => Some(0x7E),
        0xe0 => Some(0x3B),
        0xe1 => Some(0x38),
        0xe2 => Some(0x3A),
        0xe3 => Some(0x37),
        0xe4 => Some(0x3E),
        0xe5 => Some(0x3C),
        0xe6 => Some(0x3D),
        0xe7 => Some(0x36),
        _ => None,
    }
}

/// Translate a macOS CGKeyCode to a HID usage; `None` for unknown codes.
pub fn mac_to_hid(kc: u16) -> (r: Option<HidUsage>)
    ensures
        r matches Some(h) ==> spec_mac_to_hid(kc) == Some(h.0),
        r is None ==> spec_mac_to_hid(kc) is None,
{
    match kc {
        0x00 => Some(HidUsage(0x04)),
        0x0b => Some(HidUsage(0x05)),
        0x08 => Some(HidUsage(0x06)),
        0x02 => Some(HidUsage(0x07)),
        0x0e => Some(HidUsage(0x08)),
        0x03 => Some(HidUsage(0x09)),
        0x05 => Some(HidUsage(0x0a)),
        0x04 => Some(HidUsage(0x0b)),
        0x22 => Some(HidUsage(0x0c)),
        0x26 => Some(HidUsage(0x0d)),
        0x28 => Some(HidUsage(0x0e)),
        0x25 => Some(HidUsage(0x0f)),
        0x2e => Some(HidUsage(0x10)),
        0x2d => Some(HidUsage(0x11)),
        0x1f => Some(HidUsage(0x12)),
        0x23 => Some(HidUsage(0x13)),
        0x0c => Some(HidUsage(0x14)),
        0x0f => Some(HidUsage(0x15)),
        0x01 => Some(HidUsage(0x16)),
        0x11 => Some(HidUsage(0x17)),
        0x20 => Some(HidUsage(0x18)),
        0x09 => Some(HidUsage(0x19)),
        0x0d => Some(HidUsage(0x1a)),
        0x07 => Some(HidUsage(0x1b)),
        0x10 => Some(HidUsage(0x1c)),
        0x06 => Some(HidUsage(0x1d)),
        0x12 => Some(HidUsage(0x1e)),
        0x13 => Some(HidUsage(0x1f)),
        0x14 => Some(HidUsage(0x20)),
        0x15 => Some(HidUsage(0x21)),
        0x17 => Some(HidUsage(0x22)),
        0x16 => Some(HidUsage(0x23)),
        0x1a => Some(HidUsage(0x24)),
        0x1c => Some(HidUsage(0x25)),
        0x19 => Some(HidUsage(0x26)),
        0x1d => Some(HidUsage(0x27)),
        0x24 => Some(HidUsage(0x28)),
        0x35 => Some(HidUsage(0x29)),
        0x33 => Some(HidUsage(0x2a)),
        0x30 => Some(HidUsage(0x2b)),
        0x31 => Some(HidUsage(0x2c)),
        0x1b => Some(HidUsage(0x2d)),
        0x18 => Some(HidUsage(0x2e)),
        0x21 => Some(HidUsage(0x2f)),
        0x1e => Some(HidUsage(0x30)),
        0x2a => Some(HidUsage(0x31)),
        0x29 => Some(HidUsage(0x33)),
        0x27 => Some(HidUsage(0x34)),
        0x32 => Some(HidUsage(0x35)),
        0x2b => Some(HidUsage(0x36)),
        0x2f => Some(HidUsage(0x37)),
        0x2c => Some(HidUsage(0x38)),
        0x39 => Some(HidUsage(0x39)),
        0x7a => Some(HidUsage(0x3a)),
        0x78 => Some(HidUsage(0x3b)),
        0x63 => Some(HidUsage(0x3c)),
        0x76 => Some(HidUsage(0x3d)),
        0x60 => Some(HidUsage(0x3e)),
        0x61 => Some(HidUsage(0x3f)),
        0x62 => Some(HidUsage(0x40)),
        0x64 => Some(HidUsage(0x41)),
        0x65 => Some(HidUsage(0x42)),
        0x6d => Some(HidUsage(0x43)),
        0x67 => Some(HidUsage(0x44)),
        0x6f => Some(HidUsage(0x45)),
        0x72 => Some(HidUsage(0x49)),
        0x73 => Some(HidUsage(0x4a)),
        0x74 => Some(HidUsage(0x4b)),
        0x75 => Some(HidUsage(0x4c)),
        0x77 => Some(HidUsage(0x4d)),
        0x79 => Some(HidUsage(0x4e)),
        0x7c => Some(HidUsage(0x4f)),
        0x7b => Some(HidUsage(0x50)),
        0x7d => Some(HidUsage(0x51)),
        0x7e => Some(HidUsage(0x52)),
        0x3b => Some(HidUsage(0xe0)),
        0x38 => Some(HidUsage(0xe1)),
        0x3a => Some(HidUsage(0xe2)),
        0x37 => Some(HidUsage(0xe3)),
        0x3e => Some(HidUsage(0xe4)),
        0x3c => Some(HidUsage(0xe5)),
        0x3d => Some(HidUsage(0xe6)),
        0x36 => Some(HidUsage(0xe7)),
        _ => None,
    }
}

/// Law: the two macOS tables are inverse bijections: every HID code that
/// has a keycode maps back to itself, and every known keycode too.
pub proof fn law_mac_tables_inverse(usage: u16, kc: u16)
    ensures
        spec_hid_to_mac(usage) matches Some(k) ==> spec_mac_to_hid(k) == Some(usage),
        spec_mac_to_hid(kc) matches Some(u) ==> spec_hid_to_mac(u) == Some(kc),
{
}

/// The cursor key a macOS virtual keycode names, if any: `kVK_LeftArrow`,
/// `kVK_RightArrow`, `kVK_DownArrow` and `kVK_UpArrow` are `0x7B..=0x7E`.
pub open spec fn spec_mac_arrow(kc: u16) -> Option<Arrow> {
    if kc == 0x7B {
        Some(Arrow::Left)
    } else if kc == 0x7C {
        Some(Arrow::Right)
    } else if kc == 0x7D {
        Some(Arrow::Down)
    } else if kc == 0x7E {
        Some(Arrow::Up)
    } else {
        None
    }
}

/// Law: each arrow key maps to the macOS arrow key of the same direction,
/// both ways.
pub proof fn law_mac_arrows_keep_direction(usage: u16, kc: u16)
    ensures
        spec_hid_arrow(usage) is Some ==> {
            &&& spec_hid_to_mac(usage) is Some
            &&& spec_mac_arrow(spec_hid_to_mac(usage)->0) == spec_hid_arrow(usage)
        },
        spec_mac_arrow(kc) is Some ==> {
            &&& spec_mac_to_hid(kc) is Some
            &&& spec_hid_arrow(spec_mac_to_hid(kc)->0) == spec_mac_arrow(kc)
        },
{
}

} // verus!
