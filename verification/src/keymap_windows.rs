//! HID usage to Windows virtual-key and scan-code lookup.
//!
//! Injection prefers scan codes (they survive layout changes); the
//! extended bit marks keys from the extended cluster.
use vstd::prelude::*;
use crate::hid::{spec_digit_row, spec_hid_arrow, Arrow, HidUsage};

verus! {

/// `(virtual key, scan code, extended)`.
pub type WinKey = (u16, u16, bool);

/// Scan codes of the letters `a..z` on the US 101-key layout.
pub open spec fn spec_letter_scancode(idx: u16) -> u16 {
    match idx {
        0 => 0x1e,
        1 => 0x30,
        2 => 0x2e,
        3 => 0x20,
        4 => 0x12,
        5 => 0x21,
        6 => 0x22,
        7 => 0x23,
        8 => 0x17,
        9 => 0x24,
        10 => 0x25,
        11 => 0x26,
        12 => 0x32,
        13 => 0x31,
        14 => 0x18,
        15 => 0x19,
        16 => 0x10,
        17 => 0x13,
        18 => 0x1f,
        19 => 0x14,
        20 => 0x16,
        21 => 0x2f,
        22 => 0x11,
        23 => 0x2d,
        24 => 0x15,
        _ => 0x2c,
    }
}

/// Scan codes of the digit row `1..9, 0`.
pub open spec fn spec_digit_scancode(idx: u16) -> u16 {
    match idx {
        0 => 0x02,
        1 => 0x03,
        2 => 0x04,
        3 => 0x05,
        4 => 0x06,
        5 => 0x07,
        6 => 0x08,
        7 => 0x09,
        8 => 0x0a,
        _ => 0x0b,
    }
}

/// The fixed part of the forward table.
pub open spec fn spec_win_table(usage: u16) -> Option<WinKey> {
    match usage {
            0x28 => Some((0x0d, 0x1c, false)), // ENTER
            0x29 => Some((0x1b, 0x01, false)), // ESCAPE
            0x2a => Some((0x08, 0x0e, false)), // BACKSPACE
            0x2b => Some((0x09, 0x0f, false)), // TAB
            0x2c => Some((0x20, 0x39, false)), // SPACE
            0x2d => Some((0xbd, 0x0c, false)), // MINUS
            0x2e => Some((0xbb, 0x0d, false)), // EQUAL
            0x2f => Some((0xdb, 0x1a, false)), // LEFT_BRACKET
            0x30 => Some((0xdd, 0x1b, false)), // RIGHT_BRACKET
            0x31 => Some((0xdc, 0x2b, false)), // BACKSLASH
            0x33 => Some((0xba, 0x27, false)), // SEMICOLON
            0x34 => Some((0xde, 0x28, false)), // APOSTROPHE
            0x35 => Some((0xc0, 0x29, false)), // GRAVE
            0x36 => Some((0xbc, 0x33, false)), // COMMA
            0x37 => Some((0xbe, 0x34, false)), // PERIOD
            0x38 => Some((0xbf, 0x35, false)), // SLASH
            0x39 => Some((0x14, 0x3a, false)), // CAPS_LOCK
            0x3a => Some((0x70, 0x3b, false)), // F1
            0x3b => Some((0x71, 0x3c, false)), // F2
            0x3c => Some((0x72, 0x3d, false)), // F3
            0x3d => Some((0x73, 0x3e, false)), // F4
            0x3e => Some((0x74, 0x3f, false)), // F5
            0x3f => Some((0x75, 0x40, false)), // F6
            0x40 => Some((0x76, 0x41, false)), // F7
            0x41 => Some((0x77, 0x42, false)), // F8
            0x42 => Some((0x78, 0x43, false)), // F9
            0x43 => Some((0x79, 0x44, false)), // F10
            0x44 => Some((0x7a, 0x57, false)), // F11
            0x45 => Some((0x7b, 0x58, false)), // F12
            0x46 => Some((0x2c, 0x37, true)), // PRINT_SCREEN
            0x47 => Some((0x91, 0x46, false)), // SCROLL_LOCK
            0x48 => Some((0x13, 0x45, false)), // PAUSE
            0x49 => Some((0x2d, 0x52, true)), // INSERT
            0x4a => Some((0x24, 0x47, true)), // HOME
            0x4b => Some((0x21, 0x49, true)), // PAGE_UP
            0x4c => Some((0x2e, 0x53, true)), // DELETE
            0x4d => Some((0x23, 0x4f, true)), // END
            0x4e => Some((0x22, 0x51, true)), // PAGE_DOWN
            0x4f => Some((0x27, 0x4d, true)), // RIGHT
            0x50 => Some((0x25, 0x4b, true)), // LEFT
            0x51 => Some((0x28, 0x50, true)), // DOWN
            0x52 => Some((0x26, 0x48, true)), // UP
            0x53 => Some((0x90, 0x45, true)), // NUM_LOCK
            0x54 => Some((0x6f, 0x35, true)), // KP_SLASH
            0x55 => Some((0x6a, 0x37, false)), // KP_ASTERISK
            0x56 => Some((0x6d, 0x4a, false)), // KP_MINUS
            0x57 => Some((0x6b, 0x4e, false)), // KP_PLUS
            0x58 => Some((0x0d, 0x1c, true)), // KP_ENTER
            0x59 => Some((0x61, 0x4f, false)), // KP_1
            0x5a => Some((0x62, 0x50, false)), // KP_2
            0x5b => Some((0x63, 0x51, false)), // KP_3
            0x5c => Some((0x64, 0x4b, false)), // KP_4
            0x5d => Some((0x65, 0x4c, false)), // KP_5
            0x5e => Some((0x66, 0x4d, false)), // KP_6
            0x5f => Some((0x67, 0x47, false)), // KP_7
            0x60 => Some((0x68, 0x48, false)), // KP_8
            0x61 => Some((0x69, 0x49, false)), // KP_9
            0x62 => Some((0x60, 0x52, false)), // KP_0
            0x63 => Some((0x6e, 0x53, false)), // KP_PERIOD
            0x65 => Some((0x5d, 0x5d, true)), // APPLICATION
            0xe0 => Some((0xa2, 0x1d, false)), // LCTRL
            0xe1 => Some((0xa0, 0x2a, false)), // LSHIFT
            0xe2 => Some((0xa4, 0x38, false)), // LALT
            0xe3 => Some((0x5b, 0x5b, true)), // LGUI
            0xe4 => Some((0xa3, 0x1d, true)), // RCTRL
            0xe5 => Some((0xa1, 0x36, false)), // RSHIFT
            0xe6 => Some((0xa5, 0x38, true)), // RALT
            0xe7 => Some((0x5c, 0x5c, true)), // RGUI
            _ => None,
    }
}

/// HID usage to `(virtual key, scan code, extended)`.
pub open spec fn spec_hid_to_win(usage: u16) -> Option<WinKey> {
    if 0x04 <= usage <= 0x1D {
        Some(((0x41 + (usage - 0x04)) as u16, spec_letter_scancode((usage - 0x04) as u16), false))
    } else if 0x1E <= usage <= 0x27 {
        Some((if usage == 0x27 { 0x30 } else { (0x31 + (usage - 0x1E)) as u16 }, spec_digit_scancode((usage - 0x1E) as u16), false))
    } else {
        spec_win_table(usage)
    }
}

/// The fixed part of the reverse table.
pub open spec fn spec_vk_table(vk: u16) -> Option<u16> {
    match vk {
            0x0d => Some(0x28), // ENTER
            0x1b => Some(0x29), // ESCAPE
            0x08 => Some(0x2a), // BACKSPACE
            0x09 => Some(0x2b), // TAB
            0x20 => Some(0x2c), // SPACE
            0xbd => Some(0x2d), // MINUS
            0xbb => Some(0x2e), // EQUAL
            0xdb => Some(0x2f), // LEFT_BRACKET
            0xdd => Some(0x30), // RIGHT_BRACKET
            0xdc => Some(0x31), // BACKSLASH
            0xba => Some(0x33), // SEMICOLON
            0xde => Some(0x34), // APOSTROPHE
            0xc0 => Some(0x35), // GRAVE
            0xbc => Some(0x36), // COMMA
            0xbe => Some(0x37), // PERIOD
            0xbf => Some(0x38), // SLASH
            0x14 => Some(0x39), // CAPS_LOCK
            0x70 => Some(0x3a), // F1
            0x71 => Some(0x3b), // F2
            0x72 => Some(0x3c), // F3
            0x73 => Some(0x3d), // F4
            0x74 => Some(0x3e), // F5
            0x75 => Some(0x3f), // F6
            0x76 => Some(0x40), // F7
            0x77 => Some(0x41), // F8
            0x78 => Some(0x42), // F9
            0x79 => Some(0x43), // F10
            0x7a => Some(0x44), // F11
            0x7b => Some(0x45), // F12
            0x2c => Some(0x46), // PRINT_SCREEN
            0x91 => Some(0x47), // SCROLL_LOCK
            0x13 => Some(0x48), // PAUSE
            0x2d => Some(0x49), // INSERT
            0x24 => Some(0x4a), // HOME
            0x21 => Some(0x4b), // PAGE_UP
            0x2e => Some(0x4c), // DELETE
            0x23 => Some(0x4d), // END
            0x22 => Some(0x4e), // PAGE_DOWN
            0x27 => Some(0x4f), // RIGHT
            0x25 => Some(0x50), // LEFT
            0x28 => Some(0x51), // DOWN
            0x26 => Some(0x52), // UP
            0x90 => Some(0x53), // NUM_LOCK
            0xa2 => Some(0xe0), // LCTRL
            0xa0 => Some(0xe1), // LSHIFT
            0xa4 => Some(0xe2), // LALT
            0x5b => Some(0xe3), // LGUI
            0xa3 => Some(0xe4), // RCTRL
            0xa1 => Some(0xe5), // RSHIFT
            0xa5 => Some(0xe6), // RALT
            0x5c => Some(0xe7), // RGUI
            _ => None,
    }
}

/// Virtual key to HID usage.
pub open spec fn spec_vk_to_hid(vk: u16) -> Option<u16> {
    if 0x41 <= vk <= 0x5A {
        Some((vk - 0x41 + 0x04) as u16)
    } else if vk == 0x30 {
        Some(0x27)
    } else if 0x31 <= vk <= 0x39 {
        Some((vk - 0x31 + 0x1E) as u16)
    } else {
        spec_vk_table(vk)
    }
}

fn letter_scancode(idx: u16) -> (s: u16)
    ensures
        s == spec_letter_scancode(idx),
{
    match idx {
        0 => 0x1e,
        1 => 0x30,
        2 => 0x2e,
        3 => 0x20,
        4 => 0x12,
        5 => 0x21,
        6 => 0x22,
        7 => 0x23,
        8 => 0x17,
        9 => 0x24,
        10 => 0x25,
        11 => 0x26,
        12 => 0x32,
        13 => 0x31,
        14 => 0x18,
        15 => 0x19,
        16 => 0x10,
        17 => 0x13,
        18 => 0x1f,
        19 => 0x14,
        20 => 0x16,
        21 => 0x2f,
        22 => 0x11,
        23 => 0x2d,
        24 => 0x15,
        _ => 0x2c,
    }
}

fn digit_scancode(idx: u16) -> (s: u16)
    ensures
        s == spec_digit_scancode(idx),
{
    match idx {
        0 => 0x02,
        1 => 0x03,
        2 => 0x04,
        3 => 0x05,
        4 => 0x06,
        5 => 0x07,
        6 => 0x08,
        7 => 0x09,
        8 => 0x0a,
        _ => 0x0b,
    }
}

fn win_table(usage: u16) -> (r: Option<WinKey>)
    ensures
        r == spec_win_table(usage),
{
    match usage {
        0x28 => Some((0x0d, 0x1c, false)),
        0x29 => Some((0x1b, 0x01, false)),
        0x2a => Some((0x08, 0x0e, false)),
        0x2b => Some((0x09, 0x0f, false)),
        0x2c => Some((0x20, 0x39, false)),
        0x2d => Some((0xbd, 0x0c, false)),
        0x2e => Some((0xbb, 0x0d, false)),
        0x2f => Some((0xdb, 0x1a, false)),
        0x30 => Some((0xdd, 0x1b, false)),
        0x31 => Some((0xdc, 0x2b, false)),
        0x33 => Some((0xba, 0x27, false)),
        0x34 => Some((0xde, 0x28, false)),
        0x35 => Some((0xc0, 0x29, false)),
        0x36 => Some((0xbc, 0x33, false)),
        0x37 => Some((0xbe, 0x34, false)),
        0x38 => Some((0xbf, 0x35, false)),
        0x39 => Some((0x14, 0x3a, false)),
        0x3a => Some((0x70, 0x3b, false)),
        0x3b => Some((0x71, 0x3c, false)),
        0x3c => Some((0x72, 0x3d, false)),
        0x3d => Some((0x73, 0x3e, false)),
        0x3e => Some((0x74, 0x3f, false)),
        0x3f => Some((0x75, 0x40, false)),
        0x40 => Some((0x76, 0x41, false)),
        0x41 => Some((0x77, 0x42, false)),
        0x42 => Some((0x78, 0x43, false)),
        0x43 => Some((0x79, 0x44, false)),
        0x44 => Some((0x7a, 0x57, false)),
        0x45 => Some((0x7b, 0x58, false)),
        0x46 => Some((0x2c, 0x37, true)),
        0x47 => Some((0x91, 0x46, false)),
        0x48 => Some((0x13, 0x45, false)),
        0x49 => Some((0x2d, 0x52, true)),
        0x4a => Some((0x24, 0x47, true)),
        0x4b => Some((0x21, 0x49, true)),
        0x4c => Some((0x2e, 0x53, true)),
        0x4d => Some((0x23, 0x4f, true)),
        0x4e => Some((0x22, 0x51, true)),
        0x4f => Some((0x27, 0x4d, true)),
        0x50 => Some((0x25, 0x4b, true)),
        0x51 => Some((0x28, 0x50, true)),
        0x52 => Some((0x26, 0x48, true)),
        0x53 => Some((0x90, 0x45, true)),
        0x54 => Some((0x6f, 0x35, true)),
        0x55 => Some((0x6a, 0x37, false)),
        0x56 => Some((0x6d, 0x4a, false)),
        0x57 => Some((0x6b, 0x4e, false)),
        0x58 => Some((0x0d, 0x1c, true)),
        0x59 => Some((0x61, 0x4f, false)),
        0x5a => Some((0x62, 0x50, false)),
        0x5b => Some((0x63, 0x51, false)),
        0x5c => Some((0x64, 0x4b, false)),
        0x5d => Some((0x65, 0x4c, false)),
        0x5e => Some((0x66, 0x4d, false)),
        0x5f => Some((0x67, 0x47, false)),
        0x60 => Some((0x68, 0x48, false)),
        0x61 => Some((0x69, 0x49, false)),
        0x62 => Some((0x60, 0x52, false)),
        0x63 => Some((0x6e, 0x53, false)),
        0x65 => Some((0x5d, 0x5d, true)),
        0xe0 => Some((0xa2, 0x1d, false)),
        0xe1 => Some((0xa0, 0x2a, false)),
        0xe2 => Some((0xa4, 0x38, false)),
        0xe3 => Some((0x5b, 0x5b, true)),
        0xe4 => Some((0xa3, 0x1d, true)),
        0xe5 => Some((0xa1, 0x36, false)),
        0xe6 => Some((0xa5, 0x38, true)),
        0xe7 => Some((0x5c, 0x5c, true)),
        _ => None,
    }
}

/// HID usage to `(virtual key, scan code, extended)`; `None` for unknown
/// codes so the caller can drop them.
pub fn hid_to_win(hid: HidUsage) -> (r: Option<WinKey>)
    ensures
        r == spec_hid_to_win(hid.0),
{
    let n = hid.0;
    if 0x04 <= n && n <= 0x1D {
        let idx = n - 0x04;
        let vk = 0x41 + idx;
        let scan = letter_scancode(idx);
        return Some((vk, scan, false));
    }
    if 0x1E <= n && n <= 0x27 {
        let idx = n - 0x1E;
        let vk = if n == 0x27 { 0x30 } else { 0x31 + idx };
        let scan = digit_scancode(idx);
        return Some((vk, scan, false));
    }
    win_table(n)
}

fn vk_table(vk: u16) -> (r: Option<HidUsage>)
    ensures
        r matches Some(h) ==> spec_vk_table(vk) == Some(h.0),
        r is None ==> spec_vk_table(vk) is None,
{
    match vk {
        0x0d => Some(HidUsage(0x28)),
        0x1b => Some(HidUsage(0x29)),
        0x08 => Some(HidUsage(0x2a)),
        0x09 => Some(HidUsage(0x2b)),
        0x20 => Some(HidUsage(0x2c)),
        0xbd => Some(HidUsage(0x2d)),
        0xbb => Some(HidUsage(0x2e)),
        0xdb => Some(HidUsage(0x2f)),
        0xdd => Some(HidUsage(0x30)),
        0xdc => Some(HidUsage(0x31)),
        0xba => Some(HidUsage(0x33)),
        0xde => Some(HidUsage(0x34)),
        0xc0 => Some(HidUsage(0x35)),
        0xbc => Some(HidUsage(0x36)),
        0xbe => Some(HidUsage(0x37)),
        0xbf => Some(HidUsage(0x38)),
        0x14 => Some(HidUsage(0x39)),
        0x70 => Some(HidUsage(0x3a)),
        0x71 => Some(HidUsage(0x3b)),
        0x72 => Some(HidUsage(0x3c)),
        0x73 => Some(HidUsage(0x3d)),
        0x74 => Some(HidUsage(0x3e)),
        0x75 => Some(HidUsage(0x3f)),
        0x76 => Some(HidUsage(0x40)),
        0x77 => Some(HidUsage(0x41)),
        0x78 => Some(HidUsage(0x42)),
        0x79 => Some(HidUsage(0x43)),
        0x7a => Some(HidUsage(0x44)),
        0x7b => Some(HidUsage(0x45)),
        0x2c => Some(HidUsage(0x46)),
        0x91 => Some(HidUsage(0x47)),
        0x13 => Some(HidUsage(0x48)),
        0x2d => Some(HidUsage(0x49)),
        0x24 => Some(HidUsage(0x4a)),
        0x21 => Some(HidUsage(0x4b)),
        0x2e => Some(HidUsage(0x4c)),
        0x23 => Some(HidUsage(0x4d)),
        0x22 => Some(HidUsage(0x4e)),
        0x27 => Some(HidUsage(0x4f)),
        0x25 => Some(HidUsage(0x50)),
        0x28 => Some(HidUsage(0x51)),
        0x26 => Some(HidUsage(0x52)),
        0x90 => Some(HidUsage(0x53)),
        0xa2 => Some(HidUsage(0xe0)),
        0xa0 => Some(HidUsage(0xe1)),
        0xa4 => Some(HidUsage(0xe2)),
        0x5b => Some(HidUsage(0xe3)),
        0xa3 => Some(HidUsage(0xe4)),
        0xa1 => Some(HidUsage(0xe5)),
        0xa5 => Some(HidUsage(0xe6)),
        0x5c => Some(HidUsage(0xe7)),
        _ => None,
    }
}

/// Virtual key to HID usage; `None` for unknown keys.
pub fn vk_to_hid(vk: u16) -> (r: Option<HidUsage>)
    ensures
        r matches Some(h) ==> spec_vk_to_hid(vk) == Some(h.0),
        r is None ==> spec_vk_to_hid(vk) is None,
{
    if 0x41 <= vk && vk <= 0x5A {
        return Some(HidUsage((vk - 0x41) as u16 + 0x04));
    }
    if vk == 0x30 {
        return Some(HidUsage(HidUsage::KEY_0));
    }
    if 0x31 <= vk && vk <= 0x39 {
        return Some(HidUsage((vk - 0x31) as u16 + 0x1E));
    }
    vk_table(vk)
}

/// Law: the virtual key of a HID code maps back to that code wherever the
/// reverse map knows it, except keypad Enter, which shares `VK_RETURN`
/// with the main Enter key.
pub proof fn law_vk_forward_then_back(usage: u16)
    requires
        usage != HidUsage::KP_ENTER,
    ensures
        spec_hid_to_win(usage) matches Some(w)
            ==> (spec_vk_to_hid(w.0) is Some ==> spec_vk_to_hid(w.0) == Some(usage)),
{
}

/// Law: letters and digits survive the round trip HID to virtual key to
/// HID.
pub proof fn law_vk_round_trip(usage: u16)
    requires
        0x04 <= usage <= 0x27,
    ensures
        spec_hid_to_win(usage) is Some,
        spec_vk_to_hid((spec_hid_to_win(usage)->0).0) == Some(usage),
{
}

/// Law: every virtual key the reverse map knows is the virtual key of the
/// HID code it maps to.
pub proof fn law_vk_back_then_forward(vk: u16)
    ensures
        spec_vk_to_hid(vk) matches Some(u) ==> spec_hid_to_win(u) matches Some(w) && w.0 == vk,
{
}

/// The letter rows of the US keyboard, top to bottom, each left to right.
pub open spec fn spec_us_letter_rows() -> Seq<Seq<char>> {
    seq![
        seq!['q', 'w', 'e', 'r', 't', 'y', 'u', 'i', 'o', 'p'],
        seq!['a', 's', 'd', 'f', 'g', 'h', 'j', 'k', 'l'],
        seq!['z', 'x', 'c', 'v', 'b', 'n', 'm'],
    ]
}

/// Set-1 make code of the leftmost key of a letter row of the US keyboard.
pub open spec fn spec_row_first_scancode(row: int) -> int {
    if row == 0 {
        0x10
    } else if row == 1 {
        0x1E
    } else {
        0x2C
    }
}

/// Law: every letter key gets its US set-1 make code, which runs on by one
/// from the leftmost key along each letter row (`q` is 0x10, `a` is 0x1E,
/// `z` is 0x2C), together with the virtual key `VK_A + i` of the letter's
/// place `i` in the alphabet and HID usage `KEY_A + i`, not extended.
pub proof fn law_letter_scancodes_follow_the_rows(row: int, col: int)
    requires
        0 <= row < 3,
        0 <= col < spec_us_letter_rows()[row].len(),
    ensures
        ({
            let i = spec_us_letter_rows()[row][col] as int - 'a' as int;
            spec_hid_to_win((HidUsage::KEY_A + i) as u16) == Some(((0x41 + i) as u16, (spec_row_first_scancode(row) + col) as u16, false))
        }),
{
    if row == 0 {
        if col == 0 {
            assert(spec_us_letter_rows()[0][0] == 'q');
        } else if col == 1 {
            assert(spec_us_letter_rows()[0][1] == 'w');
        } else if col == 2 {
            assert(spec_us_letter_rows()[0][2] == 'e');
        } else if col == 3 {
            assert(spec_us_letter_rows()[0][3] == 'r');
        } else if col == 4 {
            assert(spec_us_letter_rows()[0][4] == 't');
        } else if col == 5 {
            assert(spec_us_letter_rows()[0][5] == 'y');
        } else if col == 6 {
            assert(spec_us_letter_rows()[0][6] == 'u');
        } else if col == 7 {
            assert(spec_us_letter_rows()[0][7] == 'i');
        } else if col == 8 {
            assert(spec_us_letter_rows()[0][8] == 'o');
        } else if col == 9 {
            assert(spec_us_letter_rows()[0][9] == 'p');
        }
    } else if row == 1 {
        if col == 0 {
            assert(spec_us_letter_rows()[1][0] == 'a');
        } else if col == 1 {
            assert(spec_us_letter_rows()[1][1] == 's');
        } else if col == 2 {
            assert(spec_us_letter_rows()[1][2] == 'd');
        } else if col == 3 {
            assert(spec_us_letter_rows()[1][3] == 'f');
        } else if col == 4 {
            assert(spec_us_letter_rows()[1][4] == 'g');
        } else if col == 5 {
            assert(spec_us_letter_rows()[1][5] == 'h');
        } else if col == 6 {
            assert(spec_us_letter_rows()[1][6] == 'j');
        } else if col == 7 {
            assert(spec_us_letter_rows()[1][7] == 'k');
        } else if col == 8 {
            assert(spec_us_letter_rows()[1][8] == 'l');
        }
    } else if row == 2 {
        if col == 0 {
            assert(spec_us_letter_rows()[2][0] == 'z');
        } else if col == 1 {
            assert(spec_us_letter_rows()[2][1] == 'x');
        } else if col == 2 {
            assert(spec_us_letter_rows()[2][2] == 'c');
        } else if col == 3 {
            assert(spec_us_letter_rows()[2][3] == 'v');
        } else if col == 4 {
            assert(spec_us_letter_rows()[2][4] == 'b');
        } else if col == 5 {
            assert(spec_us_letter_rows()[2][5] == 'n');
        } else if col == 6 {
            assert(spec_us_letter_rows()[2][6] == 'm');
        }
    }
}

/// The cursor key a Windows virtual key names, if any: `VK_LEFT`, `VK_UP`,
/// `VK_RIGHT` and `VK_DOWN` are `0x25..=0x28`.
pub open spec fn spec_vk_arrow(vk: u16) -> Option<Arrow> {
    if vk == 0x25 {
        Some(Arrow::Left)
    } else if vk == 0x26 {
        Some(Arrow::Up)
    } else if vk == 0x27 {
        Some(Arrow::Right)
    } else if vk == 0x28 {
        Some(Arrow::Down)
    } else {
        None
    }
}

/// The cursor key an extended set-1 make code names, if any: the arrow
/// cluster sends `E0 48` up, `E0 4B` left, `E0 4D` right and `E0 50` down.
pub open spec fn spec_extended_scancode_arrow(sc: u16) -> Option<Arrow> {
    if sc == 0x48 {
        Some(Arrow::Up)
    } else if sc == 0x4B {
        Some(Arrow::Left)
    } else if sc == 0x4D {
        Some(Arrow::Right)
    } else if sc == 0x50 {
        Some(Arrow::Down)
    } else {
        None
    }
}

/// Law: each arrow key maps to the virtual key and the extended scan code
/// of the same direction, and each arrow virtual key maps back to the HID
/// arrow of its direction.
pub proof fn law_win_arrows_keep_direction(usage: u16, vk: u16)
    ensures
        spec_hid_arrow(usage) is Some ==> {
            let w = spec_hid_to_win(usage)->0;
            &&& spec_hid_to_win(usage) is Some
            &&& spec_vk_arrow(w.0) == spec_hid_arrow(usage)
            &&& spec_extended_scancode_arrow(w.1) == spec_hid_arrow(usage)
            &&& w.2
        },
        spec_vk_arrow(vk) is Some ==> {
            &&& spec_vk_to_hid(vk) is Some
            &&& spec_hid_arrow(spec_vk_to_hid(vk)->0) == spec_vk_arrow(vk)
        },
{
}

/// Law: the digit keys get the virtual key of the digit's character
/// (`VK_0..VK_9` are `'0'..'9'`) and the US set-1 make codes, which run on
/// by one along the row from 0x02 for `1` to 0x0B for `0`, not extended.
pub proof fn law_digit_row_keys(col: int)
    requires
        0 <= col < 10,
    ensures
        spec_hid_to_win((HidUsage::KEY_1 + col) as u16) == Some(((spec_digit_row()[col] as u32) as u16, (0x02 + col) as u16, false)),
{
    if col == 0 {
        assert(spec_digit_row()[0] == '1');
    } else if col == 1 {
        assert(spec_digit_row()[1] == '2');
    } else if col == 2 {
        assert(spec_digit_row()[2] == '3');
    } else if col == 3 {
        assert(spec_digit_row()[3] == '4');
    } else if col == 4 {
        assert(spec_digit_row()[4] == '5');
    } else if col == 5 {
        assert(spec_digit_row()[5] == '6');
    } else if col == 6 {
        assert(spec_digit_row()[6] == '7');
    } else if col == 7 {
        assert(spec_digit_row()[7] == '8');
    } else if col == 8 {
        assert(spec_digit_row()[8] == '9');
    } else if col == 9 {
        assert(spec_digit_row()[9] == '0');
    }
}

} // verus!
