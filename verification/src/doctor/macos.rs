//! Checks for macOS.
use vstd::prelude::*;
use crate::doctor::{CheckResult, Status};

verus! {

/// The macOS checks: a reminder of the two privacy permissions input
/// capture and injection need.
pub fn checks() -> (v: Vec<CheckResult>)
    ensures
        v@.len() == 1,
        v@[0].name@ == "Permissions"@,
        v@[0].status == Status::Warn,
        v@[0].detail@ == "v0.2 input capture/inject requires:\n- System Settings \u{2192} Privacy & Security \u{2192} Accessibility\n- System Settings \u{2192} Privacy & Security \u{2192} Input Monitoring\nand (for Hub) the binary must be allowed in both."@,
{
    let c = CheckResult {
        name: "Permissions",
        status: Status::Warn,
        detail: String::from_str("v0.2 input capture/inject requires:\n- System Settings \u{2192} Privacy & Security \u{2192} Accessibility\n- System Settings \u{2192} Privacy & Security \u{2192} Input Monitoring\nand (for Hub) the binary must be allowed in both."),
    };
    vec![c]
}

} // verus!
