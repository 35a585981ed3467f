//! Platform abstraction: the vocabulary every desktop backend shares, and
//! the macOS backend's decisions.
use vstd::prelude::*;
use crate::input::Button;
use crate::snapshot::{items_model, ClipItem, ClipItemModel, ClipboardSnapshot};

verus! {

/// `std::io::Error`, carried through unchanged.
#[verifier::external_type_specification]
#[verifier::external_body]
pub struct ExIoError(std::io::Error);

/// Platform-level error.
#[derive(Debug)]
pub enum PalError {
    /// Operation is not supported on this platform / by this backend.
    Unsupported(&'static str),
    /// Required permission missing (e.g. macOS Accessibility).
    PermissionRequired(String),
    /// Underlying OS or library error.
    Backend(String),
    /// Generic IO error.
    Io(std::io::Error),
}

/// How aggressively to capture the input. The active node grabs all
/// input; a passive node lets local input pass through.
#[derive(Clone, Copy, Debug, PartialEq, Eq, Structural)]
pub enum CaptureMode {
    /// Don't intercept anything (passive).
    Off,
    /// Listen but don't suppress local delivery; used during boundary
    /// detection on the active node before crossing.
    Listen,
    /// Fully grab: intercept and suppress local delivery while the cursor
    /// logically lives on a remote screen.
    Grab,
}

/// Marker for the X11 backend on hosts without X11.
pub struct X11Stub;

/// Marker for the Windows backend on other hosts.
pub struct WindowsStub;

/// Marker for the macOS backend on other hosts.
pub struct MacosStub;

/// The message shown when macOS input capture lacks permission.
pub open spec fn spec_accessibility_message() -> Seq<char> {
    "Accessibility permission is required for input capture on macOS. Open System Settings \u{2192} Privacy & Security \u{2192} Accessibility and enable `borderless`."@
}

/// Whether macOS input capture may start: only when the process has been
/// granted Accessibility permission (`trusted`).
pub fn macos_capture_start(trusted: bool) -> (r: Result<(), PalError>)
    ensures
        trusted <==> r is Ok,
        !trusted ==> (r matches Err(PalError::PermissionRequired(m)) && m@ == spec_accessibility_message()),
{
    if !trusted {
        return Err(PalError::PermissionRequired(String::from_str(
            "Accessibility permission is required for input capture on macOS. Open System Settings \u{2192} Privacy & Security \u{2192} Accessibility and enable `borderless`.",
        )));
    }
    Ok(())
}

/// Quartz mouse event types used for buttons.
#[derive(Clone, Copy, Debug, PartialEq, Eq, Structural)]
pub enum MacMouseEvent {
    LeftMouseDown,
    LeftMouseUp,
    RightMouseDown,
    RightMouseUp,
    OtherMouseDown,
    OtherMouseUp,
}

/// Quartz mouse buttons.
#[derive(Clone, Copy, Debug, PartialEq, Eq, Structural)]
pub enum MacMouseButton {
    Left,
    Right,
    Center,
}

/// The Quartz event for a button change: left and right map to their own
/// events; middle and every other button are the "other" button.
pub open spec fn spec_mouse_event_type(btn: Button, pressed: bool) -> (MacMouseEvent, MacMouseButton) {
    match btn {
        Button::Left => if pressed { (MacMouseEvent::LeftMouseDown, MacMouseButton::Left) } else { (MacMouseEvent::LeftMouseUp, MacMouseButton::Left) },
        Button::Right => if pressed { (MacMouseEvent::RightMouseDown, MacMouseButton::Right) } else { (MacMouseEvent::RightMouseUp, MacMouseButton::Right) },
        _ => if pressed { (MacMouseEvent::OtherMouseDown, MacMouseButton::Center) } else { (MacMouseEvent::OtherMouseUp, MacMouseButton::Center) },
    }
}

/// The Quartz event type and button for a button change.
pub fn mouse_event_type(btn: Button, pressed: bool) -> (r: (MacMouseEvent, MacMouseButton))
    ensures
        r == spec_mouse_event_type(btn, pressed),
{
    match (btn, pressed) {
        (Button::Left, true) => (MacMouseEvent::LeftMouseDown, MacMouseButton::Left),
        (Button::Left, false) => (MacMouseEvent::LeftMouseUp, MacMouseButton::Left),
        (Button::Right, true) => (MacMouseEvent::RightMouseDown, MacMouseButton::Right),
        (Button::Right, false) => (MacMouseEvent::RightMouseUp, MacMouseButton::Right),
        (Button::Middle, true) => (MacMouseEvent::OtherMouseDown, MacMouseButton::Center),
        (Button::Middle, false) => (MacMouseEvent::OtherMouseUp, MacMouseButton::Center),
        (_, true) => (MacMouseEvent::OtherMouseDown, MacMouseButton::Center),
        (_, false) => (MacMouseEvent::OtherMouseUp, MacMouseButton::Center),
    }
}

/// The text a snapshot puts on a text-only clipboard: its first item that
/// is text, or the plain-text fallback of HTML.
pub open spec fn spec_clipboard_text(items: Seq<ClipItemModel>) -> Option<Seq<char>>
    decreases items.len(),
{
    if items.len() == 0 {
        None
    } else {
        match items[0] {
            ClipItemModel::Text(t) => Some(t),
            ClipItemModel::Html { plain_fallback, .. } => Some(plain_fallback),
            _ => spec_clipboard_text(items.drop_first()),
        }
    }
}

/// The text to write to a text-only clipboard for a snapshot, if any.
pub fn clipboard_text(snapshot: &ClipboardSnapshot) -> (r: Option<String>)
    ensures
        match spec_clipboard_text(items_model(snapshot.items@)) {
            Some(t) => r matches Some(s) && s@ == t,
            None => r is None,
        },
{
    let ghost items = items_model(snapshot.items@);
    let mut i: usize = 0;
    assert(items.skip(0) =~= items);
    while i < snapshot.items.len()
        invariant
            0 <= i <= snapshot.items@.len(),
            items == items_model(snapshot.items@),
            spec_clipboard_text(items) == spec_clipboard_text(items.skip(i as int)),
        decreases snapshot.items.len() - i,
    {
        let ghost rest = items.skip(i as int);
        assert(rest[0] == snapshot.items@[i as int]@);
        assert(rest.drop_first() =~= items.skip(i + 1));
        match &snapshot.items[i] {
            ClipItem::Text(t) => {
                return Some(t.clone());
            },
            ClipItem::Html { plain_fallback, .. } => {
                return Some(plain_fallback.clone());
            },
            _ => {},
        }
        i = i + 1;
    }
    assert(items.skip(i as int) =~= Seq::<ClipItemModel>::empty());
    None
}

/// One poll of a clipboard watcher: `last` is the text seen before,
/// `current` what the clipboard holds now (`None` when it holds no text).
/// A new text is reported and remembered; no text, or the same text, is
/// not.
pub fn poll_change(last: &mut Option<String>, current: Option<String>) -> (changed: Option<String>)
    ensures
        match current {
            Some(c) => if (*old(last) matches Some(l) && l@ == c@) {
                changed is None && *final(last) == *old(last)
            } else {
                changed matches Some(s) && s@ == c@ && (*final(last) matches Some(l2) && l2@ == c@)
            },
            None => changed is None && *final(last) == *old(last),
        },
{
    match current {
        Some(c) => {
            let same = match &*last {
                Some(l) => l.eq(&c),
                None => false,
            };
            if same {
                None
            } else {
                let out = c.clone();
                *last = Some(c);
                Some(out)
            }
        },
        None => None,
    }
}

} // verus!
