//! X11 input: decoding XInput2 raw events into input events, and planning
//! the XTest fake inputs that inject an input event.
//!
//! Keys travel as HID usages. On capture, a raw keycode is looked up in
//! the core keyboard mapping (the first keysym listed for it) and the keysym
//! translated to a HID usage; on injection, the HID usage is translated to
//! a keysym and the keysym to the first keycode that produces it.
use vstd::prelude::*;
use std::collections::HashMap;
use crate::hid::{apply_key_to_mask, spec_apply_key, HidUsage, ModifierMask};
use crate::input::{Button, InputEvent};
use crate::keymap_x11::{hid_to_keysym, keysym_to_hid, spec_hid_to_keysym, spec_keysym_to_hid};

verus! {

broadcast use vstd::std_specs::hash::group_hash_axioms;

/// The keycode-to-keysym table, first wins: scanning keycodes upward and
/// each keycode's keysyms left to right (position `p` of `keysyms` belongs
/// to keycode `min_kc + p / kpkc`), the first `n` positions map each
/// non-zero keysym to the keycode where it first appears.
pub open spec fn spec_keysym_table_upto(keysyms: Seq<u32>, kpkc: nat, min_kc: u8, n: nat) -> Map<u32, u8>
    decreases n,
{
    if n == 0 {
        Map::empty()
    } else {
        let prev = spec_keysym_table_upto(keysyms, kpkc, min_kc, (n - 1) as nat);
        let p = n - 1;
        if p < keysyms.len() && keysyms[p] != 0 && !prev.dom().contains(keysyms[p]) {
            prev.insert(keysyms[p], (min_kc + p / (kpkc as int)) as u8)
        } else {
            prev
        }
    }
}

/// The table for keycodes `min_kc..=max_kc`, `kpkc` keysyms per keycode.
pub open spec fn spec_keysym_table(keysyms: Seq<u32>, kpkc: nat, min_kc: u8, max_kc: u8) -> Map<u32, u8> {
    spec_keysym_table_upto(keysyms, kpkc, min_kc, ((max_kc - min_kc + 1) * kpkc) as nat)
}

/// Keysym to keycode lookup for injection.
pub struct KeysymTable {
    map: HashMap<u32, u8>,
}

impl View for KeysymTable {
    type V = Map<u32, u8>;

    closed spec fn view(&self) -> Map<u32, u8> {
        self.map@
    }
}

impl KeysymTable {
    /// Build the table from the server's core keyboard mapping: `keysyms`
    /// lists `kpkc` keysyms for each keycode `min_kc..=max_kc`. Scanning
    /// keycodes upward and each keycode's columns left to right, a keysym
    /// maps to the keycode where it first appears, whatever its column;
    /// zero entries are skipped.
    pub fn build(keysyms: &[u32], kpkc: usize, min_kc: u8, max_kc: u8) -> (t: KeysymTable)
        requires
            min_kc <= max_kc,
            max_kc - min_kc + 1 <= 255,
            (max_kc - min_kc + 1) * kpkc <= usize::MAX,
        ensures
            t@ == spec_keysym_table(keysyms@, kpkc as nat, min_kc, max_kc),
    {
        let count: u8 = max_kc - min_kc + 1;
        let total: usize = count as usize * kpkc;
        let mut map: HashMap<u32, u8> = HashMap::new();
        let mut p: usize = 0;
        while p < total
            invariant
                0 <= p <= total,
                total == count * kpkc,
                count == max_kc - min_kc + 1,
                min_kc <= max_kc,
                map@ == spec_keysym_table_upto(keysyms@, kpkc as nat, min_kc, p as nat),
            decreases total - p,
        {
            if p < keysyms.len() {
                let sym = keysyms[p];
                if sym != 0 && !map.contains_key(&sym) {
                    assert(kpkc > 0 && p / kpkc < count) by (nonlinear_arith)
                        requires
                            p < total,
                            total == count * kpkc,
                            count > 0,
                    ;
                    let kc: usize = p / kpkc;
                    map.insert(sym, min_kc + kc as u8);
                }
            }
            p = p + 1;
        }
        KeysymTable { map }
    }

    /// The keycode that produces `sym`, if any.
    pub fn keycode(&self, sym: u32) -> (r: Option<u8>)
        ensures
            r == (if self@.dom().contains(sym) { Some(self@[sym]) } else { None::<u8> }),
    {
        match self.map.get(&sym) {
            Some(k) => Some(*k),
            None => None,
        }
    }

    /// Translate a HID usage to a keycode known to the X server.
    pub fn hid_to_keycode(&self, hid: HidUsage) -> (r: Option<u8>)
        ensures
            r == (match spec_hid_to_keysym(hid.0) {
                Some(sym) => if self@.dom().contains(sym) { Some(self@[sym]) } else { None::<u8> },
                None => None::<u8>,
            }),
    {
        match hid_to_keysym(hid) {
            Some(sym) => self.keycode(sym),
            None => None,
        }
    }
}

/// X11 button number of a mouse button.
pub open spec fn spec_button_code(btn: Button) -> u8 {
    match btn {
        Button::Left => 1,
        Button::Middle => 2,
        Button::Right => 3,
        Button::Back => 8,
        Button::Forward => 9,
        Button::Other(n) => n,
    }
}

/// X11 button number of a mouse button: 1 left, 2 middle, 3 right, 8 back,
/// 9 forward; other buttons keep their number.
pub fn button_to_code(btn: Button) -> (c: u8)
    ensures
        c == spec_button_code(btn),
{
    match btn {
        Button::Left => 1,
        Button::Middle => 2,
        Button::Right => 3,
        Button::Back => 8,
        Button::Forward => 9,
        Button::Other(n) => n,
    }
}

/// One XTest fake input.
#[derive(Clone, Copy, Debug, PartialEq, Eq, Structural)]
pub enum X11Fake {
    /// Pointer motion: by `(x, y)` when `relative`, else to `(x, y)`.
    Motion { relative: bool, x: i16, y: i16 },
    /// A button press or release.
    Button { code: u8, pressed: bool },
    /// `times` clicks (press then release) of a wheel button.
    Clicks { code: u8, times: u32 },
    /// A key press or release.
    Key { keycode: u8, pressed: bool },
}

/// The absolute value of a wheel delta, as a click count.
pub open spec fn spec_abs(v: i32) -> u32 {
    if v < 0 {
        (-(v as int)) as u32
    } else {
        v as u32
    }
}

fn abs_u32(v: i32) -> (r: u32)
    ensures
        r == spec_abs(v),
{
    if v < 0 {
        let w: i64 = -(v as i64);
        w as u32
    } else {
        v as u32
    }
}

/// The wheel clicks a scroll becomes: buttons 4/5 (up/down) for the
/// vertical delta, then 6/7 (left/right) for the horizontal one, one
/// click per unit.
pub open spec fn spec_scroll_fakes(dx: i32, dy: i32) -> Seq<X11Fake> {
    let v = if dy != 0 { seq![X11Fake::Clicks { code: if dy < 0 { 4u8 } else { 5u8 }, times: spec_abs(dy) }] } else { Seq::empty() };
    let h = if dx != 0 { seq![X11Fake::Clicks { code: if dx < 0 { 6u8 } else { 7u8 }, times: spec_abs(dx) }] } else { Seq::empty() };
    v + h
}

/// The XTest fake inputs that inject `event`, in order. Motion deltas and
/// positions are truncated to 16 bits as the protocol carries them; a key
/// with no keycode, and boundary events, inject nothing.
pub open spec fn spec_emit_plan(event: InputEvent, table: Map<u32, u8>) -> Seq<X11Fake> {
    match event {
        InputEvent::MouseMove { dx, dy, .. } => seq![X11Fake::Motion { relative: true, x: dx as i16, y: dy as i16 }],
        InputEvent::MouseAbs { x, y, .. } => seq![X11Fake::Motion { relative: false, x: x as i16, y: y as i16 }],
        InputEvent::MouseButton { btn, pressed } => seq![X11Fake::Button { code: spec_button_code(btn), pressed }],
        InputEvent::Scroll { dx, dy } => spec_scroll_fakes(dx, dy),
        InputEvent::Key { code, pressed, .. } => match spec_hid_to_keysym(code.0) {
            Some(sym) => if table.dom().contains(sym) {
                seq![X11Fake::Key { keycode: table[sym], pressed }]
            } else {
                Seq::empty()
            },
            None => Seq::empty(),
        },
        InputEvent::Enter { .. } => Seq::empty(),
        InputEvent::Leave { .. } => Seq::empty(),
    }
}

/// The XTest fake inputs that inject `event`, in order.
pub fn emit_plan(event: InputEvent, table: &KeysymTable) -> (plan: Vec<X11Fake>)
    ensures
        plan@ == spec_emit_plan(event, table@),
{
    let mut plan: Vec<X11Fake> = Vec::new();
    match event {
        InputEvent::MouseMove { dx, dy, .. } => {
            let x = #[verifier::truncate] (dx as i16);
            let y = #[verifier::truncate] (dy as i16);
            plan.push(X11Fake::Motion { relative: true, x, y });
        },
        InputEvent::MouseAbs { x, y, .. } => {
            let px = #[verifier::truncate] (x as i16);
            let py = #[verifier::truncate] (y as i16);
            plan.push(X11Fake::Motion { relative: false, x: px, y: py });
        },
        InputEvent::MouseButton { btn, pressed } => {
            plan.push(X11Fake::Button { code: button_to_code(btn), pressed });
        },
        InputEvent::Scroll { dx, dy } => {
            if dy != 0 {
                let code: u8 = if dy < 0 { 4 } else { 5 };
                plan.push(X11Fake::Clicks { code, times: abs_u32(dy) });
            }
            if dx != 0 {
                let code: u8 = if dx < 0 { 6 } else { 7 };
                plan.push(X11Fake::Clicks { code, times: abs_u32(dx) });
            }
        },
        InputEvent::Key { code, pressed, .. } => {
            match table.hid_to_keycode(code) {
                Some(keycode) => plan.push(X11Fake::Key { keycode, pressed }),
                None => {},
            }
        },
        InputEvent::Enter { .. } => {},
        InputEvent::Leave { .. } => {},
    }
    assert(plan@ =~= spec_emit_plan(event, table@));
    plan
}

/// The input event of a raw button press or release: buttons 1, 2, 3, 8,
/// 9 are left, middle, right, back, forward; a press of 4/5 scrolls up or
/// down and of 6/7 left or right by one unit; anything else (a release of
/// 4..7 too) is an "other" button with the number truncated to a byte.
pub open spec fn spec_button_event(detail: u32, pressed: bool) -> InputEvent {
    if detail == 1 {
        InputEvent::MouseButton { btn: Button::Left, pressed }
    } else if detail == 2 {
        InputEvent::MouseButton { btn: Button::Middle, pressed }
    } else if detail == 3 {
        InputEvent::MouseButton { btn: Button::Right, pressed }
    } else if detail == 4 && pressed {
        InputEvent::Scroll { dx: 0, dy: -1i32 }
    } else if detail == 5 && pressed {
        InputEvent::Scroll { dx: 0, dy: 1 }
    } else if detail == 6 && pressed {
        InputEvent::Scroll { dx: -1i32, dy: 0 }
    } else if detail == 7 && pressed {
        InputEvent::Scroll { dx: 1, dy: 0 }
    } else if detail == 8 {
        InputEvent::MouseButton { btn: Button::Back, pressed }
    } else if detail == 9 {
        InputEvent::MouseButton { btn: Button::Forward, pressed }
    } else {
        InputEvent::MouseButton { btn: Button::Other(detail as u8), pressed }
    }
}

/// Decode a raw button press or release.
pub fn button_event(detail: u32, pressed: bool) -> (e: InputEvent)
    ensures
        e == spec_button_event(detail, pressed),
{
    match detail {
        1 => InputEvent::MouseButton { btn: Button::Left, pressed },
        2 => InputEvent::MouseButton { btn: Button::Middle, pressed },
        3 => InputEvent::MouseButton { btn: Button::Right, pressed },
        4 if pressed => InputEvent::Scroll { dx: 0, dy: -1 },
        5 if pressed => InputEvent::Scroll { dx: 0, dy: 1 },
        6 if pressed => InputEvent::Scroll { dx: -1, dy: 0 },
        7 if pressed => InputEvent::Scroll { dx: 1, dy: 0 },
        8 => InputEvent::MouseButton { btn: Button::Back, pressed },
        9 => InputEvent::MouseButton { btn: Button::Forward, pressed },
        b => {
            let n = #[verifier::truncate] (b as u8);
            InputEvent::MouseButton { btn: Button::Other(n), pressed }
        },
    }
}

/// Keycode offset of a raw key event from the first keycode.
pub open spec fn spec_key_offset(keycode: u32, min_kc: u8) -> int {
    (keycode as i32) as int - min_kc as int
}

/// The keysym a raw key event is read as: the first keysym listed for its
/// keycode, if the keycode is in the mapping.
pub open spec fn spec_raw_keysym(keycode: u32, keysyms: Seq<u32>, kpkc: nat, min_kc: u8) -> Option<u32> {
    let kc = spec_key_offset(keycode, min_kc);
    if kc < 0 || kc * kpkc >= keysyms.len() {
        None
    } else {
        Some(keysyms[kc * kpkc])
    }
}

/// Decode a raw key press or release: the keycode's first keysym,
/// translated to a HID usage. A known key updates `modifiers` (a modifier
/// key sets or clears its bit) and becomes a key event carrying the
/// updated modifiers; an unknown keycode or keysym is dropped and leaves
/// `modifiers` as it was.
pub fn key_event(keycode: u32, pressed: bool, keysyms: &[u32], kpkc: usize, min_kc: u8, modifiers: &mut ModifierMask) -> (e: Option<InputEvent>)
    requires
        spec_key_offset(keycode, min_kc) >= i32::MIN,
        spec_key_offset(keycode, min_kc) >= 0 ==> spec_key_offset(keycode, min_kc) * kpkc <= usize::MAX,
    ensures
        match spec_raw_keysym(keycode, keysyms@, kpkc as nat, min_kc) {
            Some(sym) => match spec_keysym_to_hid(sym) {
                Some(hid) => {
                    &&& final(modifiers)@ == spec_apply_key(old(modifiers)@, hid, pressed)
                    &&& e matches Some(InputEvent::Key { code, pressed: p, modifiers: m })
                    &&& code.0 == hid && p == pressed && m@ == final(modifiers)@
                },
                None => e is None && final(modifiers)@ == old(modifiers)@,
            },
            None => e is None && final(modifiers)@ == old(modifiers)@,
        },
{
    let signed = #[verifier::truncate] (keycode as i32);
    let kc: i32 = signed - min_kc as i32;
    if kc < 0 {
        return None;
    }
    let base: usize = kc as usize * kpkc;
    if base >= keysyms.len() {
        return None;
    }
    let sym = keysyms[base];
    match keysym_to_hid(sym) {
        Some(hid) => {
            apply_key_to_mask(modifiers, hid, pressed);
            Some(InputEvent::Key { code: hid, pressed, modifiers: *modifiers })
        },
        None => None,
    }
}

/// Whether bit `b` of word `w` is set.
pub open spec fn spec_bit_set(w: u32, b: nat) -> bool {
    w & (1u32 << (b as u32)) != 0
}

/// The positions of the set bits among the first `n` bits of a valuator
/// mask, lowest first (bit `b` of word `w` is position `32 * w + b`).
pub open spec fn spec_set_bits(mask: Seq<u32>, n: nat) -> Seq<nat>
    decreases n,
{
    if n == 0 {
        Seq::empty()
    } else {
        let p = (n - 1) as nat;
        let prev = spec_set_bits(mask, p);
        if spec_bit_set(mask[(p / 32) as int], p % 32) {
            prev.push(p)
        } else {
            prev
        }
    }
}

proof fn lemma_set_bits_len(mask: Seq<u32>, n: nat)
    ensures
        spec_set_bits(mask, n).len() <= n,
    decreases n,
{
    if n > 0 {
        lemma_set_bits_len(mask, (n - 1) as nat);
    }
}

/// The (axis, value) pairs of a raw valuator event: the k-th set bit of the
/// mask names the axis of the k-th value; bits beyond the values are
/// dropped.
pub open spec fn spec_mask_pairs(mask: Seq<u32>, values: Seq<i32>) -> Seq<(usize, i32)> {
    let bits = spec_set_bits(mask, mask.len() * 32);
    let n = if bits.len() < values.len() { bits.len() } else { values.len() };
    Seq::new(n, |k: int| (bits[k] as usize, values[k]))
}

/// Pair each set bit of a valuator mask with its value, in order.
pub fn mask_iter(mask: &[u32], values: &[i32]) -> (out: Vec<(usize, i32)>)
    requires
        mask@.len() * 32 <= usize::MAX,
    ensures
        out@ == spec_mask_pairs(mask@, values@),
{
    let mut out: Vec<(usize, i32)> = Vec::new();
    let mut value_idx: usize = 0;
    let mut word_idx: usize = 0;
    while word_idx < mask.len()
        invariant
            0 <= word_idx <= mask@.len(),
            mask@.len() * 32 <= usize::MAX,
            value_idx == spec_set_bits(mask@, (word_idx * 32) as nat).len(),
            out@ == Seq::new(
                if value_idx < values@.len() { value_idx as nat } else { values@.len() },
                |k: int| (spec_set_bits(mask@, (word_idx * 32) as nat)[k] as usize, values@[k]),
            ),
        decreases mask.len() - word_idx,
    {
        let word = mask[word_idx];
        let mut bit: u32 = 0;
        while bit < 32
            invariant
                0 <= word_idx < mask@.len(),
                mask@.len() * 32 <= usize::MAX,
                word == mask@[word_idx as int],
                0 <= bit <= 32,
                value_idx == spec_set_bits(mask@, (word_idx * 32 + bit) as nat).len(),
                out@ == Seq::new(
                    if value_idx < values@.len() { value_idx as nat } else { values@.len() },
                    |k: int| (spec_set_bits(mask@, (word_idx * 32 + bit) as nat)[k] as usize, values@[k]),
                ),
            decreases 32 - bit,
        {
            let ghost p: nat = (word_idx * 32 + bit) as nat;
            let ghost prev = spec_set_bits(mask@, p);
            proof { lemma_set_bits_len(mask@, p); }
            assert(p / 32 == word_idx && p % 32 == bit) by (nonlinear_arith)
                requires
                    p == word_idx * 32 + bit,
                    bit < 32,
            ;
            assert(spec_set_bits(mask@, p + 1) == if spec_bit_set(word, bit as nat) { prev.push(p) } else { prev });
            if word & (1u32 << bit) != 0 {
                let axis: usize = word_idx * 32 + bit as usize;
                if value_idx < values.len() {
                    out.push((axis, values[value_idx]));
                }
                value_idx = value_idx + 1;
                proof {
                    let q = spec_set_bits(mask@, p + 1);
                    assert(out@ =~= Seq::new(
                        if value_idx < values@.len() { value_idx as nat } else { values@.len() },
                        |k: int| (q[k] as usize, values@[k]),
                    ));
                }
            } else {
                proof {
                    let q = spec_set_bits(mask@, p + 1);
                    assert(out@ =~= Seq::new(
                        if value_idx < values@.len() { value_idx as nat } else { values@.len() },
                        |k: int| (q[k] as usize, values@[k]),
                    ));
                }
            }
            bit = bit + 1;
        }
        word_idx = word_idx + 1;
    }
    out
}

/// The value of the last pair for `axis`, or 0 if there is none.
pub open spec fn spec_axis_value(pairs: Seq<(usize, i32)>, axis: usize) -> i32
    decreases pairs.len(),
{
    if pairs.len() == 0 {
        0
    } else if pairs.last().0 == axis {
        pairs.last().1
    } else {
        spec_axis_value(pairs.drop_last(), axis)
    }
}

/// The motion event of a raw motion: axis 0 is x and axis 1 is y (the
/// integral parts of the values); no event when both are zero.
pub open spec fn spec_motion_event(mask: Seq<u32>, values: Seq<i32>, ts: u64) -> Option<InputEvent> {
    let pairs = spec_mask_pairs(mask, values);
    let dx = spec_axis_value(pairs, 0);
    let dy = spec_axis_value(pairs, 1);
    if dx != 0 || dy != 0 {
        Some(InputEvent::MouseMove { dx, dy, ts })
    } else {
        None
    }
}

/// Decode a raw motion: `values` are the integral parts of the valuator
/// values, `ts` the current time in milliseconds.
pub fn motion_event(mask: &[u32], values: &[i32], ts: u64) -> (e: Option<InputEvent>)
    requires
        mask@.len() * 32 <= usize::MAX,
    ensures
        e == spec_motion_event(mask@, values@, ts),
{
    let pairs = mask_iter(mask, values);
    let mut dx: i32 = 0;
    let mut dy: i32 = 0;
    let mut k: usize = 0;
    while k < pairs.len()
        invariant
            0 <= k <= pairs@.len(),
            dx == spec_axis_value(pairs@.take(k as int), 0),
            dy == spec_axis_value(pairs@.take(k as int), 1),
        decreases pairs.len() - k,
    {
        let (axis, val) = pairs[k];
        proof {
            assert(pairs@.take(k + 1).drop_last() =~= pairs@.take(k as int));
            assert(pairs@.take(k + 1).last() == pairs@[k as int]);
        }
        if axis == 0 {
            dx = val;
        } else if axis == 1 {
            dy = val;
        }
        k = k + 1;
    }
    assert(pairs@.take(pairs@.len() as int) =~= pairs@);
    if dx != 0 || dy != 0 {
        Some(InputEvent::MouseMove { dx, dy, ts })
    } else {
        None
    }
}

/// Law: decoding the X11 number of a button gives that button back, pressed
/// or released as it was, for every button whose number the server does not
/// reserve for another meaning (an `Other` number among 1 to 9 names a
/// standard button or a wheel step).
pub proof fn law_button_code_then_event(btn: Button, pressed: bool)
    requires
        match btn {
            Button::Other(n) => n == 0 || n >= 10,
            _ => true,
        },
    ensures
        spec_button_event(spec_button_code(btn) as u32, pressed) == (InputEvent::MouseButton { btn, pressed }),
{
}

/// Law: the numbers of the X core protocol: the primary (left) button is 1,
/// the middle button 2, the secondary (right) button 3, and the back and
/// forward side buttons come after the four wheel steps, as 8 and 9; the
/// numbers 4 to 7 are wheel steps, up, down, left and right.
pub proof fn law_x11_button_numbers(detail: u32, pressed: bool)
    ensures
        spec_button_code(Button::Left) == 1,
        spec_button_code(Button::Middle) == 2,
        spec_button_code(Button::Right) == 3,
        spec_button_code(Button::Back) == 8,
        spec_button_code(Button::Forward) == 9,
        (4 <= detail <= 7 && pressed) ==> spec_button_event(detail, pressed) == (InputEvent::Scroll {
            dx: if detail == 6 { -1i32 } else if detail == 7 { 1 } else { 0 },
            dy: if detail == 4 { -1i32 } else if detail == 5 { 1 } else { 0 },
        }),
{
}

} // verus!
