//! Checks for Windows.
use vstd::prelude::*;
use crate::doctor::{CheckResult, Status};

verus! {

/// The Windows checks: a reminder about the firewall prompt.
pub fn checks() -> (v: Vec<CheckResult>)
    ensures
        v@.len() == 1,
        v@[0].name@ == "Firewall"@,
        v@[0].status == Status::Warn,
        v@[0].detail@ == "On first start Windows Defender Firewall will prompt to allow\n`borderless` on the private network. Allow it for the hub to\naccept spoke connections, and for spokes to dial out."@,
{
    let c = CheckResult {
        name: "Firewall",
        status: Status::Warn,
        detail: String::from_str("On first start Windows Defender Firewall will prompt to allow\n`borderless` on the private network. Allow it for the hub to\naccept spoke connections, and for spokes to dial out."),
    };
    vec![c]
}

} // verus!
