//! Windows input: decoding low-level keyboard and mouse hook messages into
//! input events, and planning the `SendInput` records that inject one.
use vstd::prelude::*;
use crate::hid::{apply_key_to_mask, spec_apply_key, HidUsage, ModifierMask};
use crate::input::{Button, InputEvent};
use crate::keymap_windows::{hid_to_win, spec_hid_to_win, spec_vk_to_hid, vk_to_hid};

verus! {

/// `MOUSEEVENTF_MOVE`.
pub const MOUSEEVENTF_MOVE: u32 = 0x0001;
/// `MOUSEEVENTF_LEFTDOWN`.
pub const MOUSEEVENTF_LEFTDOWN: u32 = 0x0002;
/// `MOUSEEVENTF_LEFTUP`.
pub const MOUSEEVENTF_LEFTUP: u32 = 0x0004;
/// `MOUSEEVENTF_RIGHTDOWN`.
pub const MOUSEEVENTF_RIGHTDOWN: u32 = 0x0008;
/// `MOUSEEVENTF_RIGHTUP`.
pub const MOUSEEVENTF_RIGHTUP: u32 = 0x0010;
/// `MOUSEEVENTF_MIDDLEDOWN`.
pub const MOUSEEVENTF_MIDDLEDOWN: u32 = 0x0020;
/// `MOUSEEVENTF_MIDDLEUP`.
pub const MOUSEEVENTF_MIDDLEUP: u32 = 0x0040;
/// `MOUSEEVENTF_XDOWN`.
pub const MOUSEEVENTF_XDOWN: u32 = 0x0080;
/// `MOUSEEVENTF_XUP`.
pub const MOUSEEVENTF_XUP: u32 = 0x0100;
/// `MOUSEEVENTF_WHEEL`.
pub const MOUSEEVENTF_WHEEL: u32 = 0x0800;
/// `MOUSEEVENTF_HWHEEL`.
pub const MOUSEEVENTF_HWHEEL: u32 = 0x1000;
/// `MOUSEEVENTF_VIRTUALDESK`.
pub const MOUSEEVENTF_VIRTUALDESK: u32 = 0x4000;
/// `MOUSEEVENTF_ABSOLUTE`.
pub const MOUSEEVENTF_ABSOLUTE: u32 = 0x8000;
/// `XBUTTON1` (back).
pub const XBUTTON1: u16 = 0x0001;
/// `XBUTTON2` (forward).
pub const XBUTTON2: u16 = 0x0002;
/// `KEYEVENTF_EXTENDEDKEY`.
pub const KEYEVENTF_EXTENDEDKEY: u32 = 0x0001;
/// `KEYEVENTF_KEYUP`.
pub const KEYEVENTF_KEYUP: u32 = 0x0002;
/// `KEYEVENTF_SCANCODE`.
pub const KEYEVENTF_SCANCODE: u32 = 0x0008;
/// Wheel units per notch (`WHEEL_DELTA`).
pub const WHEEL_DELTA: i32 = 120;

/// `WM_KEYDOWN`.
pub const WM_KEYDOWN: u32 = 0x0100;
/// `WM_KEYUP`.
pub const WM_KEYUP: u32 = 0x0101;
/// `WM_SYSKEYDOWN`.
pub const WM_SYSKEYDOWN: u32 = 0x0104;
/// `WM_SYSKEYUP`.
pub const WM_SYSKEYUP: u32 = 0x0105;
/// `WM_MOUSEMOVE`.
pub const WM_MOUSEMOVE: u32 = 0x0200;
/// `WM_LBUTTONDOWN`.
pub const WM_LBUTTONDOWN: u32 = 0x0201;
/// `WM_LBUTTONUP`.
pub const WM_LBUTTONUP: u32 = 0x0202;
/// `WM_RBUTTONDOWN`.
pub const WM_RBUTTONDOWN: u32 = 0x0204;
/// `WM_RBUTTONUP`.
pub const WM_RBUTTONUP: u32 = 0x0205;
/// `WM_MBUTTONDOWN`.
pub const WM_MBUTTONDOWN: u32 = 0x0207;
/// `WM_MBUTTONUP`.
pub const WM_MBUTTONUP: u32 = 0x0208;
/// `WM_MOUSEWHEEL`.
pub const WM_MOUSEWHEEL: u32 = 0x020A;
/// `WM_XBUTTONDOWN`.
pub const WM_XBUTTONDOWN: u32 = 0x020B;
/// `WM_XBUTTONUP`.
pub const WM_XBUTTONUP: u32 = 0x020C;

/// One `SendInput` record.
#[derive(Clone, Copy, Debug, PartialEq, Eq, Structural)]
pub enum WinInput {
    /// A mouse record: motion `(dx, dy)`, `MOUSEEVENTF_*` flags and the
    /// `mouseData` word (wheel amount or X button).
    Mouse { dx: i32, dy: i32, flags: u32, data: i32 },
    /// A keyboard record: virtual key, scan code, `KEYEVENTF_*` flags.
    Key { vk: u16, scan: u16, flags: u32 },
}

/// `SendInput` mouse flags and data for a button change.
pub open spec fn spec_button_flags(btn: Button, pressed: bool) -> (u32, i32) {
    match btn {
        Button::Left => if pressed { (MOUSEEVENTF_LEFTDOWN, 0i32) } else { (MOUSEEVENTF_LEFTUP, 0i32) },
        Button::Right => if pressed { (MOUSEEVENTF_RIGHTDOWN, 0i32) } else { (MOUSEEVENTF_RIGHTUP, 0i32) },
        Button::Middle => if pressed { (MOUSEEVENTF_MIDDLEDOWN, 0i32) } else { (MOUSEEVENTF_MIDDLEUP, 0i32) },
        Button::Back => if pressed { (MOUSEEVENTF_XDOWN, XBUTTON1 as i32) } else { (MOUSEEVENTF_XUP, XBUTTON1 as i32) },
        Button::Forward => if pressed { (MOUSEEVENTF_XDOWN, XBUTTON2 as i32) } else { (MOUSEEVENTF_XUP, XBUTTON2 as i32) },
        Button::Other(_) => (MOUSEEVENTF_MOVE, 0i32),
    }
}

/// `SendInput` mouse flags and data for a button change; a button Windows
/// has no flag for becomes a zero move.
pub fn button_flags(btn: Button, pressed: bool) -> (r: (u32, i32))
    ensures
        r == spec_button_flags(btn, pressed),
{
    match btn {
        Button::Left => if pressed { (MOUSEEVENTF_LEFTDOWN, 0) } else { (MOUSEEVENTF_LEFTUP, 0) },
        Button::Right => if pressed { (MOUSEEVENTF_RIGHTDOWN, 0) } else { (MOUSEEVENTF_RIGHTUP, 0) },
        Button::Middle => if pressed { (MOUSEEVENTF_MIDDLEDOWN, 0) } else { (MOUSEEVENTF_MIDDLEUP, 0) },
        Button::Back => if pressed { (MOUSEEVENTF_XDOWN, XBUTTON1 as i32) } else { (MOUSEEVENTF_XUP, XBUTTON1 as i32) },
        Button::Forward => if pressed { (MOUSEEVENTF_XDOWN, XBUTTON2 as i32) } else { (MOUSEEVENTF_XUP, XBUTTON2 as i32) },
        Button::Other(_) => (MOUSEEVENTF_MOVE, 0),
    }
}

/// Keyboard flags: always by scan code, plus key-up on release and
/// extended for keys of the extended cluster.
pub open spec fn spec_key_flags(pressed: bool, extended: bool) -> u32 {
    KEYEVENTF_SCANCODE | (if pressed { 0u32 } else { KEYEVENTF_KEYUP }) | (if extended { KEYEVENTF_EXTENDEDKEY } else { 0u32 })
}

/// Whether a scroll's wheel amounts fit the record: a non-zero vertical
/// delta `dy` is sent as `-dy * 120`, a horizontal one as `dx * 120`.
pub open spec fn spec_scroll_fits(dx: i32, dy: i32) -> bool {
    &&& (dy != 0 ==> i32::MIN <= -(dy as int) <= i32::MAX && i32::MIN <= -(dy as int) * 120 <= i32::MAX)
    &&& (dx != 0 ==> i32::MIN <= dx * 120 <= i32::MAX)
}

/// The `SendInput` records that inject `event`, each sent by its own call.
pub open spec fn spec_emit_plan(event: InputEvent) -> Seq<WinInput> {
    match event {
        InputEvent::MouseMove { dx, dy, .. } => seq![WinInput::Mouse { dx, dy, flags: MOUSEEVENTF_MOVE, data: 0 }],
        InputEvent::MouseAbs { x, y, .. } => seq![WinInput::Mouse {
            dx: x,
            dy: y,
            flags: MOUSEEVENTF_MOVE | MOUSEEVENTF_ABSOLUTE | MOUSEEVENTF_VIRTUALDESK,
            data: 0,
        }],
        InputEvent::MouseButton { btn, pressed } => {
            let (flags, data) = spec_button_flags(btn, pressed);
            seq![WinInput::Mouse { dx: 0, dy: 0, flags, data }]
        },
        InputEvent::Scroll { dx, dy } => {
            let v = if dy != 0 {
                seq![WinInput::Mouse { dx: 0, dy: 0, flags: MOUSEEVENTF_WHEEL, data: (-(dy as int) * 120) as i32 }]
            } else {
                Seq::empty()
            };
            let h = if dx != 0 {
                seq![WinInput::Mouse { dx: 0, dy: 0, flags: MOUSEEVENTF_HWHEEL, data: (dx * 120) as i32 }]
            } else {
                Seq::empty()
            };
            v + h
        },
        InputEvent::Key { code, pressed, .. } => match spec_hid_to_win(code.0) {
            Some(k) => seq![WinInput::Key { vk: k.0, scan: k.1, flags: spec_key_flags(pressed, k.2) }],
            None => Seq::empty(),
        },
        InputEvent::Enter { .. } => Seq::empty(),
        InputEvent::Leave { .. } => Seq::empty(),
    }
}

/// `SendInput` emitter. Cheap to instantiate; the OS owns all state.
pub struct WindowsEmit;

impl WindowsEmit {
    /// New emitter.
    pub fn new() -> (e: WindowsEmit) {
        WindowsEmit
    }

    /// The `SendInput` records that inject `event`, in order: one per
    /// motion, button or key change; one per non-zero wheel axis (vertical
    /// first, `120` units per step, upward positive); none for a key with
    /// no Windows code or for boundary events.
    pub fn plan(&self, event: InputEvent) -> (plan: Vec<WinInput>)
        requires
            event matches InputEvent::Scroll { dx, dy } ==> spec_scroll_fits(dx, dy),
        ensures
            plan@ == spec_emit_plan(event),
    {
        let mut plan: Vec<WinInput> = Vec::new();
        match event {
            InputEvent::MouseMove { dx, dy, .. } => {
                plan.push(WinInput::Mouse { dx, dy, flags: MOUSEEVENTF_MOVE, data: 0 });
            },
            InputEvent::MouseAbs { x, y, .. } => {
                plan.push(WinInput::Mouse {
                    dx: x,
                    dy: y,
                    flags: MOUSEEVENTF_MOVE | MOUSEEVENTF_ABSOLUTE | MOUSEEVENTF_VIRTUALDESK,
                    data: 0,
                });
            },
            InputEvent::MouseButton { btn, pressed } => {
                let (flags, data) = button_flags(btn, pressed);
                plan.push(WinInput::Mouse { dx: 0, dy: 0, flags, data });
            },
            InputEvent::Scroll { dx, dy } => {
                if dy != 0 {
                    plan.push(WinInput::Mouse { dx: 0, dy: 0, flags: MOUSEEVENTF_WHEEL, data: (-dy) * WHEEL_DELTA });
                }
                if dx != 0 {
                    plan.push(WinInput::Mouse { dx: 0, dy: 0, flags: MOUSEEVENTF_HWHEEL, data: dx * WHEEL_DELTA });
                }
            },
            InputEvent::Key { code, pressed, .. } => {
                match hid_to_win(code) {
                    Some((vk, scan, ext)) => {
                        let flags: u32 = KEYEVENTF_SCANCODE | (if pressed { 0u32 } else { KEYEVENTF_KEYUP }) | (if ext {
                            KEYEVENTF_EXTENDEDKEY
                        } else {
                            0u32
                        });
                        plan.push(WinInput::Key { vk, scan, flags });
                    },
                    None => {},
                }
            },
            InputEvent::Enter { .. } => {},
            InputEvent::Leave { .. } => {},
        }
        assert(plan@ =~= spec_emit_plan(event));
        plan
    }
}

impl Default for WindowsEmit {
    fn default() -> (e: WindowsEmit) {
        WindowsEmit
    }
}

/// Whether a keyboard hook message is a key press (`Some(true)`), a
/// release (`Some(false)`), or neither.
pub open spec fn spec_key_message(msg: u32) -> Option<bool> {
    if msg == WM_KEYDOWN || msg == WM_SYSKEYDOWN {
        Some(true)
    } else if msg == WM_KEYUP || msg == WM_SYSKEYUP {
        Some(false)
    } else {
        None
    }
}

/// Decode a low-level keyboard hook message. A press or release of a key
/// with a HID usage updates `modifiers` and becomes a key event carrying
/// them; anything else is dropped and leaves `modifiers` as it was.
pub fn keyboard_hook_event(msg: u32, vk_code: u32, modifiers: &mut ModifierMask) -> (e: Option<InputEvent>)
    ensures
        match spec_key_message(msg) {
            Some(pressed) => match spec_vk_to_hid(vk_code as u16) {
                Some(hid) => {
                    &&& final(modifiers)@ == spec_apply_key(old(modifiers)@, hid, pressed)
                    &&& e matches Some(InputEvent::Key { code, pressed: p, modifiers: m })
                    &&& code.0 == hid && p == pressed && m@ == final(modifiers)@
                },
                None => e is None && final(modifiers)@ == old(modifiers)@,
            },
            None => e is None && final(modifiers)@ == old(modifiers)@,
        },
{
    let pressed = msg == WM_KEYDOWN || msg == WM_SYSKEYDOWN;
    let released = msg == WM_KEYUP || msg == WM_SYSKEYUP;
    if !(pressed || released) {
        return None;
    }
    let vk = #[verifier::truncate] (vk_code as u16);
    match vk_to_hid(vk) {
        Some(hid) => {
            apply_key_to_mask(modifiers, hid, pressed);
            Some(InputEvent::Key { code: hid, pressed, modifiers: *modifiers })
        },
        None => None,
    }
}

/// Quotient rounded toward zero, as Rust's integer `/` computes it.
pub open spec fn spec_div_toward_zero(a: int, b: int) -> int {
    if a >= 0 {
        a / b
    } else {
        -((-a) / b)
    }
}

/// The high word of `mouseData`, as a signed wheel delta.
pub open spec fn spec_wheel_delta(mouse_data: u32) -> i16 {
    (mouse_data >> 16u32) as i16
}

/// The high word of `mouseData`, as an X button number.
pub open spec fn spec_xbutton(mouse_data: u32) -> u16 {
    (mouse_data >> 16u32) as u16
}

/// The event of a low-level mouse hook message at screen point `(x, y)`:
/// a move is reported relative to the previous move (the first move only
/// records the point); button messages map to button changes (an X button
/// is back when it is `XBUTTON1`, forward otherwise); a wheel message
/// scrolls by whole notches, downward positive. Other messages give no
/// event.
pub open spec fn spec_mouse_hook_event(msg: u32, x: i32, y: i32, mouse_data: u32, last: Option<(i32, i32)>, ts: u64) -> Option<InputEvent> {
    if msg == WM_MOUSEMOVE {
        match last {
            Some(p) => Some(InputEvent::MouseMove { dx: (x - p.0) as i32, dy: (y - p.1) as i32, ts }),
            None => None,
        }
    } else if msg == WM_LBUTTONDOWN {
        Some(InputEvent::MouseButton { btn: Button::Left, pressed: true })
    } else if msg == WM_LBUTTONUP {
        Some(InputEvent::MouseButton { btn: Button::Left, pressed: false })
    } else if msg == WM_RBUTTONDOWN {
        Some(InputEvent::MouseButton { btn: Button::Right, pressed: true })
    } else if msg == WM_RBUTTONUP {
        Some(InputEvent::MouseButton { btn: Button::Right, pressed: false })
    } else if msg == WM_MBUTTONDOWN {
        Some(InputEvent::MouseButton { btn: Button::Middle, pressed: true })
    } else if msg == WM_MBUTTONUP {
        Some(InputEvent::MouseButton { btn: Button::Middle, pressed: false })
    } else if msg == WM_XBUTTONDOWN || msg == WM_XBUTTONUP {
        Some(InputEvent::MouseButton {
            btn: if spec_xbutton(mouse_data) == XBUTTON1 { Button::Back } else { Button::Forward },
            pressed: msg == WM_XBUTTONDOWN,
        })
    } else if msg == WM_MOUSEWHEEL {
        Some(InputEvent::Scroll { dx: 0, dy: (-spec_div_toward_zero(spec_wheel_delta(mouse_data) as int, 120)) as i32 })
    } else {
        None
    }
}

/// Decode a low-level mouse hook message; `last` is the point of the
/// previous move and is updated by every move.
pub fn mouse_hook_event(msg: u32, x: i32, y: i32, mouse_data: u32, last: &mut Option<(i32, i32)>, ts: u64) -> (e: Option<InputEvent>)
    requires
        msg == WM_MOUSEMOVE && *old(last) is Some ==> {
            let p = (*old(last))->0;
            &&& i32::MIN <= x - p.0 <= i32::MAX
            &&& i32::MIN <= y - p.1 <= i32::MAX
        },
    ensures
        e == spec_mouse_hook_event(msg, x, y, mouse_data, *old(last), ts),
        *final(last) == if msg == WM_MOUSEMOVE { Some((x, y)) } else { *old(last) },
{
    if msg == WM_MOUSEMOVE {
        let ev = match *last {
            Some((px, py)) => Some(InputEvent::MouseMove { dx: x - px, dy: y - py, ts }),
            None => None,
        };
        *last = Some((x, y));
        ev
    } else if msg == WM_LBUTTONDOWN {
        Some(InputEvent::MouseButton { btn: Button::Left, pressed: true })
    } else if msg == WM_LBUTTONUP {
        Some(InputEvent::MouseButton { btn: Button::Left, pressed: false })
    } else if msg == WM_RBUTTONDOWN {
        Some(InputEvent::MouseButton { btn: Button::Right, pressed: true })
    } else if msg == WM_RBUTTONUP {
        Some(InputEvent::MouseButton { btn: Button::Right, pressed: false })
    } else if msg == WM_MBUTTONDOWN {
        Some(InputEvent::MouseButton { btn: Button::Middle, pressed: true })
    } else if msg == WM_MBUTTONUP {
        Some(InputEvent::MouseButton { btn: Button::Middle, pressed: false })
    } else if msg == WM_XBUTTONDOWN || msg == WM_XBUTTONUP {
        let xbtn = #[verifier::truncate] ((mouse_data >> 16u32) as u16);
        let btn = if xbtn == XBUTTON1 { Button::Back } else { Button::Forward };
        Some(InputEvent::MouseButton { btn, pressed: msg == WM_XBUTTONDOWN })
    } else if msg == WM_MOUSEWHEEL {
        let delta = #[verifier::truncate] ((mouse_data >> 16u32) as i16);
        let notches: i16 = delta / 120;
        let dy: i32 = -(notches as i32);
        Some(InputEvent::Scroll { dx: 0, dy })
    } else {
        None
    }
}

} // verus!
