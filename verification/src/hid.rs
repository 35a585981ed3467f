//! USB HID usage codes and the modifier bitmask: the lingua franca for
//! cross-platform key event mapping.
//!
//! Every platform backend translates its native key codes to and from this
//! representation, so the wire never carries platform-specific key codes.
use vstd::prelude::*;

verus! {

/// A USB HID usage code, stored as its 16-bit value. Keyboard/Keypad page
/// (0x07) usages sit in `0x00..=0xFF`; selected Consumer page (0x0C) usages
/// carry `0x0C` in the high byte. Unknown values are kept as they are.
#[derive(Clone, Copy, Debug, PartialEq, Eq, Hash, Structural)]
pub struct HidUsage(pub u16);

impl HidUsage {
    /// `a`/`A`.
    pub const KEY_A: u16 = 0x04;
    /// `b`/`B`.
    pub const KEY_B: u16 = 0x05;
    /// `c`/`C`.
    pub const KEY_C: u16 = 0x06;
    /// `d`/`D`.
    pub const KEY_D: u16 = 0x07;
    /// `e`/`E`.
    pub const KEY_E: u16 = 0x08;
    /// `f`/`F`.
    pub const KEY_F: u16 = 0x09;
    /// `g`/`G`.
    pub const KEY_G: u16 = 0x0A;
    /// `h`/`H`.
    pub const KEY_H: u16 = 0x0B;
    /// `i`/`I`.
    pub const KEY_I: u16 = 0x0C;
    /// `j`/`J`.
    pub const KEY_J: u16 = 0x0D;
    /// `k`/`K`.
    pub const KEY_K: u16 = 0x0E;
    /// `l`/`L`.
    pub const KEY_L: u16 = 0x0F;
    /// `m`/`M`.
    pub const KEY_M: u16 = 0x10;
    /// `n`/`N`.
    pub const KEY_N: u16 = 0x11;
    /// `o`/`O`.
    pub const KEY_O: u16 = 0x12;
    /// `p`/`P`.
    pub const KEY_P: u16 = 0x13;
    /// `q`/`Q`.
    pub const KEY_Q: u16 = 0x14;
    /// `r`/`R`.
    pub const KEY_R: u16 = 0x15;
    /// `s`/`S`.
    pub const KEY_S: u16 = 0x16;
    /// `t`/`T`.
    pub const KEY_T: u16 = 0x17;
    /// `u`/`U`.
    pub const KEY_U: u16 = 0x18;
    /// `v`/`V`.
    pub const KEY_V: u16 = 0x19;
    /// `w`/`W`.
    pub const KEY_W: u16 = 0x1A;
    /// `x`/`X`.
    pub const KEY_X: u16 = 0x1B;
    /// `y`/`Y`.
    pub const KEY_Y: u16 = 0x1C;
    /// `z`/`Z`.
    pub const KEY_Z: u16 = 0x1D;
    /// `1`/`!`.
    pub const KEY_1: u16 = 0x1E;
    /// `2`/`@`.
    pub const KEY_2: u16 = 0x1F;
    /// `3`/`#`.
    pub const KEY_3: u16 = 0x20;
    /// `4`/`$`.
    pub const KEY_4: u16 = 0x21;
    /// `5`/`%`.
    pub const KEY_5: u16 = 0x22;
    /// `6`/`^`.
    pub const KEY_6: u16 = 0x23;
    /// `7`/`&`.
    pub const KEY_7: u16 = 0x24;
    /// `8`/`*`.
    pub const KEY_8: u16 = 0x25;
    /// `9`/`(`.
    pub const KEY_9: u16 = 0x26;
    /// `0`/`)`.
    pub const KEY_0: u16 = 0x27;
    /// Enter / Return.
    pub const ENTER: u16 = 0x28;
    /// Esc.
    pub const ESCAPE: u16 = 0x29;
    /// Backspace.
    pub const BACKSPACE: u16 = 0x2A;
    /// Tab.
    pub const TAB: u16 = 0x2B;
    /// Space.
    pub const SPACE: u16 = 0x2C;
    /// `-`/`_`.
    pub const MINUS: u16 = 0x2D;
    /// `=`/`+`.
    pub const EQUAL: u16 = 0x2E;
    /// `[`/`{`.
    pub const LEFT_BRACKET: u16 = 0x2F;
    /// `]`/`}`.
    pub const RIGHT_BRACKET: u16 = 0x30;
    /// Backslash / `|`.
    pub const BACKSLASH: u16 = 0x31;
    /// Non-US `#`/`~`.
    pub const NON_US_HASH: u16 = 0x32;
    /// `;`/`:`.
    pub const SEMICOLON: u16 = 0x33;
    /// `'`/`"`.
    pub const APOSTROPHE: u16 = 0x34;
    /// Grave accent / tilde.
    pub const GRAVE: u16 = 0x35;
    /// `,`/`<`.
    pub const COMMA: u16 = 0x36;
    /// `.`/`>`.
    pub const PERIOD: u16 = 0x37;
    /// `/`/`?`.
    pub const SLASH: u16 = 0x38;
    /// Caps Lock.
    pub const CAPS_LOCK: u16 = 0x39;
    /// F1.
    pub const F1: u16 = 0x3A;
    /// F2.
    pub const F2: u16 = 0x3B;
    /// F3.
    pub const F3: u16 = 0x3C;
    /// F4.
    pub const F4: u16 = 0x3D;
    /// F5.
    pub const F5: u16 = 0x3E;
    /// F6.
    pub const F6: u16 = 0x3F;
    /// F7.
    pub const F7: u16 = 0x40;
    /// F8.
    pub const F8: u16 = 0x41;
    /// F9.
    pub const F9: u16 = 0x42;
    /// F10.
    pub const F10: u16 = 0x43;
    /// F11.
    pub const F11: u16 = 0x44;
    /// F12.
    pub const F12: u16 = 0x45;
    /// PrintScreen / SysRq.
    pub const PRINT_SCREEN: u16 = 0x46;
    /// Scroll Lock.
    pub const SCROLL_LOCK: u16 = 0x47;
    /// Pause / Break.
    pub const PAUSE: u16 = 0x48;
    /// Insert.
    pub const INSERT: u16 = 0x49;
    /// Home.
    pub const HOME: u16 = 0x4A;
    /// Page Up.
    pub const PAGE_UP: u16 = 0x4B;
    /// Delete (forward).
    pub const DELETE: u16 = 0x4C;
    /// End.
    pub const END: u16 = 0x4D;
    /// Page Down.
    pub const PAGE_DOWN: u16 = 0x4E;
    /// Right Arrow.
    pub const RIGHT: u16 = 0x4F;
    /// Left Arrow.
    pub const LEFT: u16 = 0x50;
    /// Down Arrow.
    pub const DOWN: u16 = 0x51;
    /// Up Arrow.
    pub const UP: u16 = 0x52;
    /// Num Lock / Clear.
    pub const NUM_LOCK: u16 = 0x53;
    /// Keypad `/`.
    pub const KP_SLASH: u16 = 0x54;
    /// Keypad `*`.
    pub const KP_ASTERISK: u16 = 0x55;
    /// Keypad `-`.
    pub const KP_MINUS: u16 = 0x56;
    /// Keypad `+`.
    pub const KP_PLUS: u16 = 0x57;
    /// Keypad Enter.
    pub const KP_ENTER: u16 = 0x58;
    /// Keypad 1 / End.
    pub const KP_1: u16 = 0x59;
    /// Keypad 2 / Down.
    pub const KP_2: u16 = 0x5A;
    /// Keypad 3 / PgDn.
    pub const KP_3: u16 = 0x5B;
    /// Keypad 4 / Left.
    pub const KP_4: u16 = 0x5C;
    /// Keypad 5.
    pub const KP_5: u16 = 0x5D;
    /// Keypad 6 / Right.
    pub const KP_6: u16 = 0x5E;
    /// Keypad 7 / Home.
    pub const KP_7: u16 = 0x5F;
    /// Keypad 8 / Up.
    pub const KP_8: u16 = 0x60;
    /// Keypad 9 / PgUp.
    pub const KP_9: u16 = 0x61;
    /// Keypad 0 / Insert.
    pub const KP_0: u16 = 0x62;
    /// Keypad `.` / Delete.
    pub const KP_PERIOD: u16 = 0x63;
    /// Non-US backslash / `|`.
    pub const NON_US_BACKSLASH: u16 = 0x64;
    /// Application key (context menu).
    pub const APPLICATION: u16 = 0x65;
    /// F13.
    pub const F13: u16 = 0x68;
    /// F14.
    pub const F14: u16 = 0x69;
    /// F15.
    pub const F15: u16 = 0x6A;
    /// F16.
    pub const F16: u16 = 0x6B;
    /// F17.
    pub const F17: u16 = 0x6C;
    /// F18.
    pub const F18: u16 = 0x6D;
    /// F19.
    pub const F19: u16 = 0x6E;
    /// F20.
    pub const F20: u16 = 0x6F;
    /// F21.
    pub const F21: u16 = 0x70;
    /// F22.
    pub const F22: u16 = 0x71;
    /// F23.
    pub const F23: u16 = 0x72;
    /// F24.
    pub const F24: u16 = 0x73;
    /// Left Control.
    pub const LCTRL: u16 = 0xE0;
    /// Left Shift.
    pub const LSHIFT: u16 = 0xE1;
    /// Left Alt / Option.
    pub const LALT: u16 = 0xE2;
    /// Left GUI (Win / Cmd).
    pub const LGUI: u16 = 0xE3;
    /// Right Control.
    pub const RCTRL: u16 = 0xE4;
    /// Right Shift.
    pub const RSHIFT: u16 = 0xE5;
    /// Right Alt.
    pub const RALT: u16 = 0xE6;
    /// Right GUI.
    pub const RGUI: u16 = 0xE7;
    /// Consumer: Mute.
    pub const CONSUMER_MUTE: u16 = 0x0CE2;
    /// Consumer: Volume Up.
    pub const CONSUMER_VOLUME_UP: u16 = 0x0CE9;
    /// Consumer: Volume Down.
    pub const CONSUMER_VOLUME_DOWN: u16 = 0x0CEA;
    /// Consumer: Play/Pause.
    pub const CONSUMER_PLAY_PAUSE: u16 = 0x0CCD;
    /// Consumer: Next Track.
    pub const CONSUMER_NEXT_TRACK: u16 = 0x0CB5;
    /// Consumer: Previous Track.
    pub const CONSUMER_PREV_TRACK: u16 = 0x0CB6;
    /// Consumer: Stop.
    pub const CONSUMER_STOP: u16 = 0x0CB7;
    /// Consumer: Brightness Up.
    pub const CONSUMER_BRIGHTNESS_UP: u16 = 0x0C6F;
    /// Consumer: Brightness Down.
    pub const CONSUMER_BRIGHTNESS_DOWN: u16 = 0x0C70;
    /// Consumer: Eject.
    pub const CONSUMER_EJECT: u16 = 0x0CB8;

    /// True if this usage is on the Consumer page (0x0C).
    pub fn is_consumer(self) -> (r: bool)
        ensures
            r == (self.0 / 256 == 0x0C),
    {
        let v = self.0;
        let hi = v & 0xFF00;
        assert(hi == (v / 256) * 256) by (bit_vector)
            requires
                hi == v & 0xFF00,
        ;
        hi == 0x0C00
    }

    /// True if this usage is on the Keyboard/Keypad page (0x07).
    pub fn is_keyboard(self) -> (r: bool)
        ensures
            r == (self.0 <= 0xFF),
    {
        self.0 <= 0xFF
    }
}

/// Bitmask of the modifier keys currently held, one bit per modifier in
/// HID order (bit 0 = left control ... bit 7 = right GUI).
#[derive(Clone, Copy, Debug, Default, PartialEq, Eq, Hash, Structural)]
pub struct ModifierMask {
    bits: u8,
}

impl View for ModifierMask {
    type V = u8;

    open spec fn view(&self) -> u8 {
        self.spec_bits()
    }
}

impl ModifierMask {
    /// Left Control.
    pub const LCTRL: u8 = 0b0000_0001;
    /// Left Shift.
    pub const LSHIFT: u8 = 0b0000_0010;
    /// Left Alt / Option.
    pub const LALT: u8 = 0b0000_0100;
    /// Left GUI (Win / Cmd).
    pub const LGUI: u8 = 0b0000_1000;
    /// Right Control.
    pub const RCTRL: u8 = 0b0001_0000;
    /// Right Shift.
    pub const RSHIFT: u8 = 0b0010_0000;
    /// Right Alt.
    pub const RALT: u8 = 0b0100_0000;
    /// Right GUI.
    pub const RGUI: u8 = 0b1000_0000;

    /// The raw bits, in spec code.
    pub closed spec fn spec_bits(&self) -> u8 {
        self.bits
    }

    /// The mask with no modifier held.
    pub fn empty() -> (m: ModifierMask)
        ensures
            m@ == 0,
    {
        ModifierMask { bits: 0 }
    }

    /// The mask with exactly the given bits.
    pub fn from_bits(bits: u8) -> (m: ModifierMask)
        ensures
            m@ == bits,
    {
        ModifierMask { bits }
    }

    /// The raw bits.
    pub fn bits(&self) -> (b: u8)
        ensures
            b == self@,
    {
        self.bits
    }

    /// True if no modifier is held.
    pub fn is_empty(&self) -> (r: bool)
        ensures
            r == (self@ == 0),
    {
        self.bits == 0
    }

    /// True if every bit of `other` is set in `self`.
    pub fn contains(&self, other: u8) -> (r: bool)
        ensures
            r == (self@ & other == other),
    {
        self.bits & other == other
    }

    /// Union of the held modifiers and `other`.
    pub fn union(self, other: u8) -> (m: ModifierMask)
        ensures
            m@ == self@ | other,
    {
        ModifierMask { bits: self.bits | other }
    }

    /// Set the bits of `other`.
    pub fn insert(&mut self, other: u8)
        ensures
            final(self)@ == old(self)@ | other,
    {
        self.bits = self.bits | other;
    }

    /// Clear the bits of `other`.
    pub fn remove(&mut self, other: u8)
        ensures
            final(self)@ == old(self)@ & !other,
    {
        self.bits = self.bits & !other;
    }
}

/// The modifier bit that a HID usage stands for, if it is one of the eight
/// modifier keys (`0xE0..=0xE7`, in the same order as the mask bits).
pub open spec fn spec_modifier_bit(code: u16) -> Option<u8> {
    if 0xE0 <= code <= 0xE7 {
        Some(spec_pow2((code - 0xE0) as nat))
    } else {
        None
    }
}

/// `2^n` as a byte, for `n < 8`.
pub open spec fn spec_pow2(n: nat) -> u8
    recommends
        n < 8,
{
    if n == 0 {
        1
    } else if n == 1 {
        2
    } else if n == 2 {
        4
    } else if n == 3 {
        8
    } else if n == 4 {
        16
    } else if n == 5 {
        32
    } else if n == 6 {
        64
    } else {
        128
    }
}

/// The modifier bit of a HID usage, if it is a modifier key.
pub fn modifier_bit(code: HidUsage) -> (r: Option<u8>)
    ensures
        r == spec_modifier_bit(code.0),
{
    match code.0 {
        0xE0 => Some(ModifierMask::LCTRL),
        0xE1 => Some(ModifierMask::LSHIFT),
        0xE2 => Some(ModifierMask::LALT),
        0xE3 => Some(ModifierMask::LGUI),
        0xE4 => Some(ModifierMask::RCTRL),
        0xE5 => Some(ModifierMask::RSHIFT),
        0xE6 => Some(ModifierMask::RALT),
        0xE7 => Some(ModifierMask::RGUI),
        _ => None,
    }
}

/// The mask after a key press or release: a modifier's bit is set on press
/// and cleared on release; any other key leaves the mask as it is.
pub open spec fn spec_apply_key(mask: u8, code: u16, pressed: bool) -> u8 {
    match spec_modifier_bit(code) {
        Some(bit) => if pressed {
            mask | bit
        } else {
            mask & !bit
        },
        None => mask,
    }
}

/// Apply a key press/release to a modifier mask in place.
pub fn apply_key_to_mask(mask: &mut ModifierMask, code: HidUsage, pressed: bool)
    ensures
        final(mask)@ == spec_apply_key(old(mask)@, code.0, pressed),
{
    if let Some(bit) = modifier_bit(code) {
        if pressed {
            mask.insert(bit);
        } else {
            mask.remove(bit);
        }
    }
}

/// Law: the eight modifier usages `0xE0 + i` (`i < 8`) stand for the mask
/// bit `1 << i`, and no other usage stands for a bit.
pub proof fn law_modifier_usage_is_bit_index(code: u16)
    ensures
        0xE0 <= code <= 0xE7 ==> spec_modifier_bit(code) == Some(1u8 << ((code - 0xE0) as u8)),
        !(0xE0 <= code <= 0xE7) ==> spec_modifier_bit(code) is None,
{
    if 0xE0 <= code <= 0xE7 {
        let i: u8 = (code - 0xE0) as u8;
        assert(i < 8 ==> {
            &&& (i == 0 ==> 1u8 << i == 1)
            &&& (i == 1 ==> 1u8 << i == 2)
            &&& (i == 2 ==> 1u8 << i == 4)
            &&& (i == 3 ==> 1u8 << i == 8)
            &&& (i == 4 ==> 1u8 << i == 16)
            &&& (i == 5 ==> 1u8 << i == 32)
            &&& (i == 6 ==> 1u8 << i == 64)
            &&& (i == 7 ==> 1u8 << i == 128)
        }) by (bit_vector);
    }
}

/// Law: each named modifier key of the HID usage table stands for the mask
/// bit of the same name.
pub proof fn law_modifier_keys_set_their_named_bits()
    ensures
        spec_modifier_bit(HidUsage::LCTRL) == Some(ModifierMask::LCTRL),
        spec_modifier_bit(HidUsage::LSHIFT) == Some(ModifierMask::LSHIFT),
        spec_modifier_bit(HidUsage::LALT) == Some(ModifierMask::LALT),
        spec_modifier_bit(HidUsage::LGUI) == Some(ModifierMask::LGUI),
        spec_modifier_bit(HidUsage::RCTRL) == Some(ModifierMask::RCTRL),
        spec_modifier_bit(HidUsage::RSHIFT) == Some(ModifierMask::RSHIFT),
        spec_modifier_bit(HidUsage::RALT) == Some(ModifierMask::RALT),
        spec_modifier_bit(HidUsage::RGUI) == Some(ModifierMask::RGUI),
{
}

/// Law: pressing a modifier key sets exactly its own bit and releasing it
/// clears exactly that bit, the other seven bits staying as they were.
pub proof fn law_modifier_press_release_touch_one_bit(mask: u8, i: u8, j: u8)
    requires
        i < 8,
        j < 8,
    ensures
        (spec_apply_key(mask, (0xE0 + i) as u16, true) >> j) & 1 == if j == i { 1 } else { (mask >> j) & 1 },
        (spec_apply_key(mask, (0xE0 + i) as u16, false) >> j) & 1 == if j == i { 0 } else { (mask >> j) & 1 },
{
    law_modifier_usage_is_bit_index((0xE0 + i) as u16);
    let bit: u8 = 1u8 << i;
    assert(((mask | bit) >> j) & 1 == if j == i { 1u8 } else { (mask >> j) & 1 }) by (bit_vector)
        requires
            i < 8,
            j < 8,
            bit == 1u8 << i,
    ;
    assert(((mask & !bit) >> j) & 1 == if j == i { 0u8 } else { (mask >> j) & 1 }) by (bit_vector)
        requires
            i < 8,
            j < 8,
            bit == 1u8 << i,
    ;
}

/// A cursor key, by the direction it moves in.
#[derive(Clone, Copy, Debug, PartialEq, Eq, Structural)]
pub enum Arrow {
    /// Left arrow.
    Left,
    /// Right arrow.
    Right,
    /// Up arrow.
    Up,
    /// Down arrow.
    Down,
}

/// The cursor key a HID usage names, if any: the Keyboard page has Right,
/// Left, Down and Up Arrow as `0x4F..=0x52`.
pub open spec fn spec_hid_arrow(usage: u16) -> Option<Arrow> {
    if usage == HidUsage::RIGHT {
        Some(Arrow::Right)
    } else if usage == HidUsage::LEFT {
        Some(Arrow::Left)
    } else if usage == HidUsage::DOWN {
        Some(Arrow::Down)
    } else if usage == HidUsage::UP {
        Some(Arrow::Up)
    } else {
        None
    }
}

/// The digit keys of the top row, left to right; the Keyboard page numbers
/// them `KEY_1..=KEY_0` in this order.
pub open spec fn spec_digit_row() -> Seq<char> {
    seq!['1', '2', '3', '4', '5', '6', '7', '8', '9', '0']
}

} // verus!
