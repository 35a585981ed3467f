//! HID usage to X11 keysym lookup, both ways.
//!
//! The X server may map any keysym to any keycode, so the X11 backend
//! always goes through the keysym and resolves the keycode at run time.
//! These tables are the only place that fixes what a HID code means there.
use vstd::prelude::*;
use crate::hid::{spec_digit_row, spec_hid_arrow, Arrow, HidUsage};

verus! {

/// A 32-bit X11 keysym (e.g. `XK_a` is `0x0061`, `XK_Return` is `0xff0d`).
pub type Keysym = u32;

/// Letters: HID `0x04..=0x1D` are `a..z`, lowercase keysyms `0x61..`.
pub open spec fn spec_alpha_to_keysym(usage: u16) -> Option<u32> {
    if 0x04 <= usage <= 0x1D {
        Some((0x61 + (usage - 0x04)) as u32)
    } else {
        None
    }
}

/// Digits: HID `0x1E..=0x26` are `1..9`, `0x27` is `0`; keysym `0x30 + digit`.
pub open spec fn spec_digit_to_keysym(usage: u16) -> Option<u32> {
    if 0x1E <= usage <= 0x27 {
        Some((0x30 + if usage == 0x27 { 0 } else { usage - 0x1E + 1 }) as u32)
    } else {
        None
    }
}

/// The fixed part of the forward table.
pub open spec fn spec_keysym_table(usage: u16) -> Option<u32> {
    match usage {
            0x28 => Some(0xff0d), // ENTER
            0x29 => Some(0xff1b), // ESCAPE
            0x2a => Some(0xff08), // BACKSPACE
            0x2b => Some(0xff09), // TAB
            0x2c => Some(0x0020), // SPACE
            0x2d => Some(0x002d), // MINUS
            0x2e => Some(0x003d), // EQUAL
            0x2f => Some(0x005b), // LEFT_BRACKET
            0x30 => Some(0x005d), // RIGHT_BRACKET
            0x31 => Some(0x005c), // BACKSLASH
            0x33 => Some(0x003b), // SEMICOLON
            0x34 => Some(0x0027), // APOSTROPHE
            0x35 => Some(0x0060), // GRAVE
            0x36 => Some(0x002c), // COMMA
            0x37 => Some(0x002e), // PERIOD
            0x38 => Some(0x002f), // SLASH
            0x39 => Some(0xffe5), // CAPS_LOCK
            0x3a => Some(0xffbe), // F1
            0x3b => Some(0xffbf), // F2
            0x3c => Some(0xffc0), // F3
            0x3d => Some(0xffc1), // F4
            0x3e => Some(0xffc2), // F5
            0x3f => Some(0xffc3), // F6
            0x40 => Some(0xffc4), // F7
            0x41 => Some(0xffc5), // F8
            0x42 => Some(0xffc6), // F9
            0x43 => Some(0xffc7), // F10
            0x44 => Some(0xffc8), // F11
            0x45 => Some(0xffc9), // F12
            0x68 => Some(0xffca), // F13
            0x69 => Some(0xffcb), // F14
            0x6a => Some(0xffcc), // F15
            0x6b => Some(0xffcd), // F16
            0x6c => Some(0xffce), // F17
            0x6d => Some(0xffcf), // F18
            0x6e => Some(0xffd0), // F19
            0x6f => Some(0xffd1), // F20
            0x70 => Some(0xffd2), // F21
            0x71 => Some(0xffd3), // F22
            0x72 => Some(0xffd4), // F23
            0x73 => Some(0xffd5), // F24
            0x46 => Some(0xff61), // PRINT_SCREEN
            0x47 => Some(0xff14), // SCROLL_LOCK
            0x48 => Some(0xff13), // PAUSE
            0x49 => Some(0xff63), // INSERT
            0x4a => Some(0xff50), // HOME
            0x4b => Some(0xff55), // PAGE_UP
            0x4c => Some(0xffff), // DELETE
            0x4d => Some(0xff57), // END
            0x4e => Some(0xff56), // PAGE_DOWN
            0x4f => Some(0xff53), // RIGHT
            0x50 => Some(0xff51), // LEFT
            0x51 => Some(0xff54), // DOWN
            0x52 => Some(0xff52), // UP
            0x53 => Some(0xff7f), // NUM_LOCK
            0x54 => Some(0xffaf), // KP_SLASH
            0x55 => Some(0xffaa), // KP_ASTERISK
            0x56 => Some(0xffad), // KP_MINUS
            0x57 => Some(0xffab), // KP_PLUS
            0x58 => Some(0xff8d), // KP_ENTER
            0x59 => Some(0xffb1), // KP_1
            0x5a => Some(0xffb2), // KP_2
            0x5b => Some(0xffb3), // KP_3
            0x5c => Some(0xffb4), // KP_4
            0x5d => Some(0xffb5), // KP_5
            0x5e => Some(0xffb6), // KP_6
            0x5f => Some(0xffb7), // KP_7
            0x60 => Some(0xffb8), // KP_8
            0x61 => Some(0xffb9), // KP_9
            0x62 => Some(0xffb0), // KP_0
            0x63 => Some(0xffae), // KP_PERIOD
            0x65 => Some(0xff67), // APPLICATION
            0xe0 => Some(0xffe3), // LCTRL
            0xe1 => Some(0xffe1), // LSHIFT
            0xe2 => Some(0xffe9), // LALT
            0xe3 => Some(0xffeb), // LGUI
            0xe4 => Some(0xffe4), // RCTRL
            0xe5 => Some(0xffe2), // RSHIFT
            0xe6 => Some(0xffea), // RALT
            0xe7 => Some(0xffec), // RGUI
            _ => None,
    }
}

/// HID usage to its primary X11 keysym.
pub open spec fn spec_hid_to_keysym(usage: u16) -> Option<u32> {
    if spec_alpha_to_keysym(usage) is Some {
        spec_alpha_to_keysym(usage)
    } else if spec_digit_to_keysym(usage) is Some {
        spec_digit_to_keysym(usage)
    } else {
        spec_keysym_table(usage)
    }
}

/// The fixed part of the reverse table.
pub open spec fn spec_keysym_reverse_table(keysym: u32) -> Option<u16> {
    match keysym {
            0xff0d => Some(0x28), // ENTER
            0xff1b => Some(0x29), // ESCAPE
            0xff08 => Some(0x2a), // BACKSPACE
            0xff09 => Some(0x2b), // TAB
            0x0020 => Some(0x2c), // SPACE
            0x002d => Some(0x2d), // MINUS
            0x003d => Some(0x2e), // EQUAL
            0x005b => Some(0x2f), // LEFT_BRACKET
            0x005d => Some(0x30), // RIGHT_BRACKET
            0x005c => Some(0x31), // BACKSLASH
            0x003b => Some(0x33), // SEMICOLON
            0x0027 => Some(0x34), // APOSTROPHE
            0x0060 => Some(0x35), // GRAVE
            0x002c => Some(0x36), // COMMA
            0x002e => Some(0x37), // PERIOD
            0x002f => Some(0x38), // SLASH
            0xffe5 => Some(0x39), // CAPS_LOCK
            0xffbe => Some(0x3a), // F1
            0xffbf => Some(0x3b), // F2
            0xffc0 => Some(0x3c), // F3
            0xffc1 => Some(0x3d), // F4
            0xffc2 => Some(0x3e), // F5
            0xffc3 => Some(0x3f), // F6
            0xffc4 => Some(0x40), // F7
            0xffc5 => Some(0x41), // F8
            0xffc6 => Some(0x42), // F9
            0xffc7 => Some(0x43), // F10
            0xffc8 => Some(0x44), // F11
            0xffc9 => Some(0x45), // F12
            0xff63 => Some(0x49), // INSERT
            0xff50 => Some(0x4a), // HOME
            0xff55 => Some(0x4b), // PAGE_UP
            0xffff => Some(0x4c), // DELETE
            0xff57 => Some(0x4d), // END
            0xff56 => Some(0x4e), // PAGE_DOWN
            0xff53 => Some(0x4f), // RIGHT
            0xff51 => Some(0x50), // LEFT
            0xff54 => Some(0x51), // DOWN
            0xff52 => Some(0x52), // UP
            0xff7f => Some(0x53), // NUM_LOCK
            0xffe3 => Some(0xe0), // LCTRL
            0xffe1 => Some(0xe1), // LSHIFT
            0xffe9 => Some(0xe2), // LALT
            0xffeb => Some(0xe3), // LGUI
            0xffe4 => Some(0xe4), // RCTRL
            0xffe2 => Some(0xe5), // RSHIFT
            0xffea => Some(0xe6), // RALT
            0xffec => Some(0xe7), // RGUI
            _ => None,
    }
}

/// X11 keysym to HID usage: lowercase and uppercase letters, digits, then
/// the fixed table.
pub open spec fn spec_keysym_to_hid(keysym: u32) -> Option<u16> {
    if 0x61 <= keysym <= 0x7a {
        Some((keysym - 0x61 + 0x04) as u16)
    } else if 0x41 <= keysym <= 0x5a {
        Some((keysym - 0x41 + 0x04) as u16)
    } else if keysym == 0x30 {
        Some(0x27)
    } else if 0x31 <= keysym <= 0x39 {
        Some((keysym - 0x31 + 0x1E) as u16)
    } else {
        spec_keysym_reverse_table(keysym)
    }
}

/// Letter keysym, if `usage` is a letter.
pub fn alpha_to_keysym(usage: u16) -> (r: Option<Keysym>)
    ensures
        r == spec_alpha_to_keysym(usage),
{
    let n: i32 = usage as i32 - 0x04;
    if 0 <= n && n <= 25 {
        Some(0x0061 + n as u32)
    } else {
        None
    }
}

/// Digit keysym, if `usage` is on the digit row.
pub fn digit_to_keysym(usage: u16) -> (r: Option<Keysym>)
    ensures
        r == spec_digit_to_keysym(usage),
{
    if 0x1E <= usage && usage <= 0x27 {
        let digit: u32 = if usage == 0x27 {
            0
        } else {
            (usage - 0x1E + 1) as u32
        };
        Some(0x0030 + digit)
    } else {
        None
    }
}

fn keysym_table(usage: u16) -> (r: Option<Keysym>)
    ensures
        r == spec_keysym_table(usage),
{
    match usage {
        0x28 => Some(0xff0d),
        0x29 => Some(0xff1b),
        0x2a => Some(0xff08),
        0x2b => Some(0xff09),
        0x2c => Some(0x0020),
        0x2d => Some(0x002d),
        0x2e => Some(0x003d),
        0x2f => Some(0x005b),
        0x30 => Some(0x005d),
        0x31 => Some(0x005c),
        0x33 => Some(0x003b),
        0x34 => Some(0x0027),
        0x35 => Some(0x0060),
        0x36 => Some(0x002c),
        0x37 => Some(0x002e),
        0x38 => Some(0x002f),
        0x39 => Some(0xffe5),
        0x3a => Some(0xffbe),
        0x3b => Some(0xffbf),
        0x3c => Some(0xffc0),
        0x3d => Some(0xffc1),
        0x3e => Some(0xffc2),
        0x3f => Some(0xffc3),
        0x40 => Some(0xffc4),
        0x41 => Some(0xffc5),
        0x42 => Some(0xffc6),
        0x43 => Some(0xffc7),
        0x44 => Some(0xffc8),
        0x45 => Some(0xffc9),
        0x68 => Some(0xffca),
        0x69 => Some(0xffcb),
        0x6a => Some(0xffcc),
        0x6b => Some(0xffcd),
        0x6c => Some(0xffce),
        0x6d => Some(0xffcf),
        0x6e => Some(0xffd0),
        0x6f => Some(0xffd1),
        0x70 => Some(0xffd2),
        0x71 => Some(0xffd3),
        0x72 => Some(0xffd4),
        0x73 => Some(0xffd5),
        0x46 => Some(0xff61),
        0x47 => Some(0xff14),
        0x48 => Some(0xff13),
        0x49 => Some(0xff63),
        0x4a => Some(0xff50),
        0x4b => Some(0xff55),
        0x4c => Some(0xffff),
        0x4d => Some(0xff57),
        0x4e => Some(0xff56),
        0x4f => Some(0xff53),
        0x50 => Some(0xff51),
        0x51 => Some(0xff54),
        0x52 => Some(0xff52),
        0x53 => Some(0xff7f),
        0x54 => Some(0xffaf),
        0x55 => Some(0xffaa),
        0x56 => Some(0xffad),
        0x57 => Some(0xffab),
        0x58 => Some(0xff8d),
        0x59 => Some(0xffb1),
        0x5a => Some(0xffb2),
        0x5b => Some(0xffb3),
        0x5c => Some(0xffb4),
        0x5d => Some(0xffb5),
        0x5e => Some(0xffb6),
        0x5f => Some(0xffb7),
        0x60 => Some(0xffb8),
        0x61 => Some(0xffb9),
        0x62 => Some(0xffb0),
        0x63 => Some(0xffae),
        0x65 => Some(0xff67),
        0xe0 => Some(0xffe3),
        0xe1 => Some(0xffe1),
        0xe2 => Some(0xffe9),
        0xe3 => Some(0xffeb),
        0xe4 => Some(0xffe4),
        0xe5 => Some(0xffe2),
        0xe6 => Some(0xffea),
        0xe7 => Some(0xffec),
        _ => None,
    }
}

/// Translate a HID usage to its primary X11 keysym; unknown codes give
/// `None` and the caller drops them.
pub fn hid_to_keysym(usage: HidUsage) -> (r: Option<Keysym>)
    ensures
        r == spec_hid_to_keysym(usage.0),
{
    if let Some(k) = alpha_to_keysym(usage.0) {
        return Some(k);
    }
    if let Some(k) = digit_to_keysym(usage.0) {
        return Some(k);
    }
    keysym_table(usage.0)
}

fn keysym_reverse_table(keysym: Keysym) -> (r: Option<HidUsage>)
    ensures
        r matches Some(h) ==> spec_keysym_reverse_table(keysym) == Some(h.0),
        r is None ==> spec_keysym_reverse_table(keysym) is None,
{
    match keysym {
        0xff0d => Some(HidUsage(0x28)),
        0xff1b => Some(HidUsage(0x29)),
        0xff08 => Some(HidUsage(0x2a)),
        0xff09 => Some(HidUsage(0x2b)),
        0x0020 => Some(HidUsage(0x2c)),
        0x002d => Some(HidUsage(0x2d)),
        0x003d => Some(HidUsage(0x2e)),
        0x005b => Some(HidUsage(0x2f)),
        0x005d => Some(HidUsage(0x30)),
        0x005c => Some(HidUsage(0x31)),
        0x003b => Some(HidUsage(0x33)),
        0x0027 => Some(HidUsage(0x34)),
        0x0060 => Some(HidUsage(0x35)),
        0x002c => Some(HidUsage(0x36)),
        0x002e => Some(HidUsage(0x37)),
        0x002f => Some(HidUsage(0x38)),
        0xffe5 => Some(HidUsage(0x39)),
        0xffbe => Some(HidUsage(0x3a)),
        0xffbf => Some(HidUsage(0x3b)),
        0xffc0 => Some(HidUsage(0x3c)),
        0xffc1 => Some(HidUsage(0x3d)),
        0xffc2 => Some(HidUsage(0x3e)),
        0xffc3 => Some(HidUsage(0x3f)),
        0xffc4 => Some(HidUsage(0x40)),
        0xffc5 => Some(HidUsage(0x41)),
        0xffc6 => Some(HidUsage(0x42)),
        0xffc7 => Some(HidUsage(0x43)),
        0xffc8 => Some(HidUsage(0x44)),
        0xffc9 => Some(HidUsage(0x45)),
        0xff63 => Some(HidUsage(0x49)),
        0xff50 => Some(HidUsage(0x4a)),
        0xff55 => Some(HidUsage(0x4b)),
        0xffff => Some(HidUsage(0x4c)),
        0xff57 => Some(HidUsage(0x4d)),
        0xff56 => Some(HidUsage(0x4e)),
        0xff53 => Some(HidUsage(0x4f)),
        0xff51 => Some(HidUsage(0x50)),
        0xff54 => Some(HidUsage(0x51)),
        0xff52 => Some(HidUsage(0x52)),
        0xff7f => Some(HidUsage(0x53)),
        0xffe3 => Some(HidUsage(0xe0)),
        0xffe1 => Some(HidUsage(0xe1)),
        0xffe9 => Some(HidUsage(0xe2)),
        0xffeb => Some(HidUsage(0xe3)),
        0xffe4 => Some(HidUsage(0xe4)),
        0xffe2 => Some(HidUsage(0xe5)),
        0xffea => Some(HidUsage(0xe6)),
        0xffec => Some(HidUsage(0xe7)),
        _ => None,
    }
}

/// Inverse of [`hid_to_keysym`] for the keysyms we know; uppercase letter
/// keysyms map to the letter keys too. `None` for unknown keysyms.
pub fn keysym_to_hid(keysym: Keysym) -> (r: Option<HidUsage>)
    ensures
        r matches Some(h) ==> spec_keysym_to_hid(keysym) == Some(h.0),
        r is None ==> spec_keysym_to_hid(keysym) is None,
{
    if 0x0061 <= keysym && keysym <= 0x007a {
        return Some(HidUsage((keysym - 0x0061) as u16 + 0x04));
    }
    if 0x0041 <= keysym && keysym <= 0x005a {
        return Some(HidUsage((keysym - 0x0041) as u16 + 0x04));
    }
    if keysym == 0x0030 {
        return Some(HidUsage(HidUsage::KEY_0));
    }
    if 0x0031 <= keysym && keysym <= 0x0039 {
        return Some(HidUsage((keysym - 0x0031) as u16 + 0x1E));
    }
    keysym_reverse_table(keysym)
}

/// Law: the reverse map agrees with the forward map wherever it is
/// defined: a keysym that a HID code produces maps back to that code.
pub proof fn law_keysym_forward_then_back(usage: u16)
    ensures
        spec_hid_to_keysym(usage) matches Some(k)
            ==> (spec_keysym_to_hid(k) is Some ==> spec_keysym_to_hid(k) == Some(usage)),
{
}

/// Law: letters, digits and the eight modifiers survive the round trip
/// HID to keysym to HID.
pub proof fn law_keysym_round_trip(usage: u16)
    requires
        0x04 <= usage <= 0x27 || 0xE0 <= usage <= 0xE7,
    ensures
        spec_hid_to_keysym(usage) is Some,
        spec_keysym_to_hid(spec_hid_to_keysym(usage)->0) == Some(usage),
{
}

/// Law: every keysym that the reverse map knows, except uppercase letter
/// keysyms, is the primary keysym of the HID code it maps to.
pub proof fn law_keysym_back_then_forward(keysym: u32)
    requires
        !(0x41 <= keysym <= 0x5a),
    ensures
        spec_keysym_to_hid(keysym) matches Some(u) ==> spec_hid_to_keysym(u) == Some(keysym),
{
}

/// The cursor key an X11 keysym names, if any: `XK_Left`, `XK_Up`,
/// `XK_Right` and `XK_Down` are `0xff51..=0xff54`.
pub open spec fn spec_keysym_arrow(keysym: u32) -> Option<Arrow> {
    if keysym == 0xff51 {
        Some(Arrow::Left)
    } else if keysym == 0xff52 {
        Some(Arrow::Up)
    } else if keysym == 0xff53 {
        Some(Arrow::Right)
    } else if keysym == 0xff54 {
        Some(Arrow::Down)
    } else {
        None
    }
}

/// Law: each arrow key maps to the X11 arrow keysym of the same direction,
/// both ways.
pub proof fn law_keysym_arrows_keep_direction(usage: u16, keysym: u32)
    ensures
        spec_hid_arrow(usage) is Some ==> {
            &&& spec_hid_to_keysym(usage) is Some
            &&& spec_keysym_arrow(spec_hid_to_keysym(usage)->0) == spec_hid_arrow(usage)
        },
        spec_keysym_arrow(keysym) is Some ==> {
            &&& spec_keysym_to_hid(keysym) is Some
            &&& spec_hid_arrow(spec_keysym_to_hid(keysym)->0) == spec_keysym_arrow(keysym)
        },
{
}

/// Law: a letter key's keysym is the character code of its lowercase
/// letter (`XK_a..XK_z` are Latin-1 `'a'..'z'`), in alphabetical order of
/// the HID usages from `KEY_A`.
pub proof fn law_letter_keysyms_are_their_characters(c: char)
    requires
        'a' <= c <= 'z',
    ensures
        spec_hid_to_keysym((HidUsage::KEY_A + (c as int - 'a' as int)) as u16) == Some(c as u32),
{
}

/// Law: a digit key's keysym is the character code of its digit
/// (`XK_0..XK_9` are `'0'..'9'`), for the row `KEY_1..=KEY_0`.
pub proof fn law_digit_keysyms_are_their_characters(col: int)
    requires
        0 <= col < 10,
    ensures
        spec_hid_to_keysym((HidUsage::KEY_1 + col) as u16) == Some(spec_digit_row()[col] as u32),
{
    if col == 0 {
        assert(spec_digit_row()[0] == '1');
    } else if col == 1 {
        assert(spec_digit_row()[1] == '2');
    } else if col == 2 {
        assert(spec_digit_row()[2] == '3');
    } else if col == 3 {
        assert(spec_digit_row()[3] == '4');
    } else if col == 4 {
        assert(spec_digit_row()[4] == '5');
    } else if col == 5 {
        assert(spec_digit_row()[5] == '6');
    } else if col == 6 {
        assert(spec_digit_row()[6] == '7');
    } else if col == 7 {
        assert(spec_digit_row()[7] == '8');
    } else if col == 8 {
        assert(spec_digit_row()[8] == '9');
    } else if col == 9 {
        assert(spec_digit_row()[9] == '0');
    }
}

} // verus!
