//! Checks for an X11 desktop on Linux.
use vstd::prelude::*;
use crate::doctor::{CheckResult, Status};

verus! {

/// Whether an X display is configured: `display` is the value of
/// `DISPLAY`, if set.
pub fn display_check(display: Option<&str>) -> (c: CheckResult)
    ensures
        c.name@ == "X11 DISPLAY"@,
        (display matches Some(d) && d@.len() > 0) ==> c.status == Status::Pass
            && c.detail@ == "found DISPLAY="@ + display->0@ + "; clipboard text + X11 input emit should work"@,
        !(display matches Some(d) && d@.len() > 0) ==> c.status == Status::Warn
            && c.detail@ == "DISPLAY is unset. Clipboard ops will fail in headless mode."@,
{
    match display {
        Some(d) => {
            if d.unicode_len() > 0 {
                let mut s = String::from_str("found DISPLAY=");
                s.append(d);
                s.append("; clipboard text + X11 input emit should work");
                return CheckResult { name: "X11 DISPLAY", status: Status::Pass, detail: s };
            }
        },
        None => {},
    }
    CheckResult {
        name: "X11 DISPLAY",
        status: Status::Warn,
        detail: String::from_str("DISPLAY is unset. Clipboard ops will fail in headless mode."),
    }
}

/// Whether the session is Wayland: `wayland_display_set` tells whether
/// `WAYLAND_DISPLAY` is set.
pub fn wayland_warning(wayland_display_set: bool) -> (c: CheckResult)
    ensures
        c.name@ == "Wayland session"@,
        wayland_display_set ==> c.status == Status::Warn
            && c.detail@ == "WAYLAND_DISPLAY is set. v0.2 only supports the X11/XWayland\nbackend. Native Wayland input lands in v0.3."@,
        !wayland_display_set ==> c.status == Status::Pass && c.detail@ == "no WAYLAND_DISPLAY; treating session as X11."@,
{
    if wayland_display_set {
        CheckResult {
            name: "Wayland session",
            status: Status::Warn,
            detail: String::from_str("WAYLAND_DISPLAY is set. v0.2 only supports the X11/XWayland\nbackend. Native Wayland input lands in v0.3."),
        }
    } else {
        CheckResult {
            name: "Wayland session",
            status: Status::Pass,
            detail: String::from_str("no WAYLAND_DISPLAY; treating session as X11."),
        }
    }
}

/// The Linux checks: the display, then the session kind.
pub fn checks(display: Option<&str>, wayland_display_set: bool) -> (v: Vec<CheckResult>)
    ensures
        v@.len() == 2,
        v@[0]@ == display_check_model(display),
        v@[1]@ == wayland_warning_model(wayland_display_set),
{
    let a = display_check(display);
    let b = wayland_warning(wayland_display_set);
    let v = vec![a, b];
    v
}

/// What [`display_check`] reports.
pub open spec fn display_check_model(display: Option<&str>) -> crate::doctor::CheckModel {
    if display matches Some(d) && d@.len() > 0 {
        crate::doctor::CheckModel {
            name: "X11 DISPLAY"@,
            status: Status::Pass,
            detail: "found DISPLAY="@ + display->0@ + "; clipboard text + X11 input emit should work"@,
        }
    } else {
        crate::doctor::CheckModel {
            name: "X11 DISPLAY"@,
            status: Status::Warn,
            detail: "DISPLAY is unset. Clipboard ops will fail in headless mode."@,
        }
    }
}

/// What [`wayland_warning`] reports.
pub open spec fn wayland_warning_model(wayland_display_set: bool) -> crate::doctor::CheckModel {
    if wayland_display_set {
        crate::doctor::CheckModel {
            name: "Wayland session"@,
            status: Status::Warn,
            detail: "WAYLAND_DISPLAY is set. v0.2 only supports the X11/XWayland\nbackend. Native Wayland input lands in v0.3."@,
        }
    } else {
        crate::doctor::CheckModel {
            name: "Wayland session"@,
            status: Status::Pass,
            detail: "no WAYLAND_DISPLAY; treating session as X11."@,
        }
    }
}

} // verus!
