//! Environment checks and their text report.
//!
//! Each check has a short label, a status and a long-form explanation.
//! The report prints one `[STATUS] label` line per check, followed by the
//! explanation's lines, indented.
use vstd::prelude::*;
use crate::config::RoleKind;
use crate::text::{push_decimal, spec_decimal};

pub mod linux;
pub mod macos;
pub mod windows;

verus! {

/// One of three possible outcomes.
#[derive(Clone, Copy, Debug, PartialEq, Eq, Structural)]
pub enum Status {
    /// Looks good.
    Pass,
    /// Probably fine, but the user should know.
    Warn,
    /// Will not work as-is.
    Fail,
}

/// The four-character tag printed for a status.
pub open spec fn spec_glyph(s: Status) -> Seq<char> {
    match s {
        Status::Pass => seq![' ', 'O', 'K', ' '],
        Status::Warn => seq!['W', 'A', 'R', 'N'],
        Status::Fail => seq!['F', 'A', 'I', 'L'],
    }
}

impl Status {
    /// The four-character tag printed for this status.
    pub fn glyph(self) -> (g: &'static str)
        ensures
            g@ == spec_glyph(self),
            g@.len() == 4,
    {
        proof {
            reveal_strlit(" OK ");
            reveal_strlit("WARN");
            reveal_strlit("FAIL");
        }
        match self {
            Status::Pass => " OK ",
            Status::Warn => "WARN",
            Status::Fail => "FAIL",
        }
    }
}

/// Result of a single check.
#[derive(Clone, Debug)]
pub struct CheckResult {
    /// Short label.
    pub name: &'static str,
    /// Pass / warn / fail.
    pub status: Status,
    /// Long-form explanation, with hints for fixing.
    pub detail: String,
}

/// A check as plain values.
pub struct CheckModel {
    pub name: Seq<char>,
    pub status: Status,
    pub detail: Seq<char>,
}

impl View for CheckResult {
    type V = CheckModel;

    open spec fn view(&self) -> CheckModel {
        CheckModel { name: self.name@, status: self.status, detail: self.detail@ }
    }
}

/// Index of the first `\n` in `s`, or its length if there is none.
pub open spec fn spec_first_nl(s: Seq<char>) -> nat
    decreases s.len(),
{
    if s.len() == 0 {
        0
    } else if s[0] == '\n' {
        0
    } else {
        1 + spec_first_nl(s.drop_first())
    }
}

/// A line without the `\r` of a `\r\n` ending.
pub open spec fn spec_strip_cr(l: Seq<char>) -> Seq<char> {
    if l.len() > 0 && l.last() == '\r' {
        l.drop_last()
    } else {
        l
    }
}

/// The lines of a text, as `str::lines` splits it: at each `\n`, removing
/// a `\r` right before it; a final line ending adds no empty line.
pub open spec fn spec_lines(s: Seq<char>) -> Seq<Seq<char>>
    decreases s.len(),
{
    if s.len() == 0 {
        Seq::empty()
    } else {
        let i = spec_first_nl(s);
        if i >= s.len() {
            seq![s]
        } else {
            seq![spec_strip_cr(s.take(i as int))] + spec_lines(s.skip(i as int + 1))
        }
    }
}

/// Indentation of explanation lines in the report.
pub open spec fn spec_detail_indent() -> Seq<char> {
    seq![' ', ' ', ' ', ' ', ' ', ' ', ' ', ' ', ' ']
}

/// Each line, indented, on a line of its own.
pub open spec fn spec_indented(lines: Seq<Seq<char>>) -> Seq<char>
    decreases lines.len(),
{
    if lines.len() == 0 {
        Seq::empty()
    } else {
        spec_detail_indent() + lines[0] + seq!['\n'] + spec_indented(lines.drop_first())
    }
}

/// The report text of one check.
pub open spec fn spec_check_text(c: CheckModel) -> Seq<char> {
    seq![' ', ' ', '['] + spec_glyph(c.status) + seq![']', ' '] + c.name + seq!['\n'] + spec_indented(spec_lines(c.detail))
}

/// The report text of checks, in order.
pub open spec fn spec_checks_text(cs: Seq<CheckModel>) -> Seq<char>
    decreases cs.len(),
{
    if cs.len() == 0 {
        Seq::empty()
    } else {
        spec_checks_text(cs.drop_last()) + spec_check_text(cs.last())
    }
}

/// The report's heading, followed by an empty line.
pub open spec fn spec_report_heading() -> Seq<char> {
    "borderless doctor:\n\n"@
}

/// The whole report.
pub open spec fn spec_format(cs: Seq<CheckModel>) -> Seq<char> {
    spec_report_heading() + spec_checks_text(cs)
}

proof fn lemma_first_nl(s: Seq<char>, k: nat)
    requires
        k <= s.len(),
        forall|m: int| 0 <= m < k ==> s[m] != '\n',
        k == s.len() || s[k as int] == '\n',
    ensures
        spec_first_nl(s) == k,
    decreases k,
{
    if k > 0 {
        let t = s.drop_first();
        assert forall|m: int| 0 <= m < k - 1 implies t[m] != '\n' by {
            assert(t[m] == s[m + 1]);
        }
        if k < s.len() {
            assert(t[k - 1] == s[k as int]);
        }
        lemma_first_nl(t, (k - 1) as nat);
    }
}

/// Append the indented lines of `detail`.
fn push_detail_lines(s: &mut String, detail: &str)
    ensures
        final(s)@ == old(s)@ + spec_indented(spec_lines(detail@)),
{
    let len = detail.unicode_len();
    let mut start: usize = 0;
    let ghost d = detail@;
    assert(d.skip(0) =~= d);
    while start < len
        invariant
            d == detail@,
            len == d.len(),
            start <= len,
            old(s)@ + spec_indented(spec_lines(d)) == s@ + spec_indented(spec_lines(d.skip(start as int))),
        decreases len - start,
    {
        let ghost rest = d.skip(start as int);
        let mut j: usize = start;
        while j < len && detail.get_char(j) != '\n'
            invariant
                d == detail@,
                len == d.len(),
                start <= j <= len,
                forall|m: int| start <= m < j ==> d[m] != '\n',
            decreases len - j,
        {
            j = j + 1;
        }
        proof {
            assert forall|m: int| 0 <= m < j - start implies rest[m] != '\n' by {
                assert(rest[m] == d[start + m]);
            }
            if j < len {
                assert(rest[j - start] == d[j as int]);
            }
            lemma_first_nl(rest, (j - start) as nat);
        }
        s.append("         ");
        proof { reveal_strlit("         "); }
        if j < len {
            let end: usize = if j > start && detail.get_char(j - 1) == '\r' { j - 1 } else { j };
            s.append(detail.substring_char(start, end));
            proof { reveal_strlit("\n"); }
            s.append("\n");
            proof {
                let piece = rest.take((j - start) as int);
                assert(piece.len() > 0 ==> piece.last() == d[j - 1]);
                assert(spec_strip_cr(piece) =~= d.subrange(start as int, end as int));
                assert(rest.skip((j - start) as int + 1) =~= d.skip(j + 1));
                assert(spec_lines(rest) == seq![spec_strip_cr(piece)] + spec_lines(d.skip(j + 1)));
                let ls = spec_lines(rest);
                assert(ls.drop_first() =~= spec_lines(d.skip(j + 1)));
            }
            start = j + 1;
        } else {
            s.append(detail.substring_char(start, len));
            proof { reveal_strlit("\n"); }
            s.append("\n");
            proof {
                assert(rest =~= d.subrange(start as int, len as int));
                assert(spec_lines(rest) == seq![rest]);
                assert(seq![rest].drop_first() =~= Seq::<Seq<char>>::empty());
                assert(d.skip(len as int) =~= Seq::<char>::empty());
                assert(spec_lines(d.skip(len as int)) =~= Seq::<Seq<char>>::empty());
            }
            start = len;
        }
    }
    assert(d.skip(len as int) =~= Seq::<char>::empty());
    assert(spec_lines(d.skip(len as int)) =~= Seq::<Seq<char>>::empty());
}

/// Render the report to a human-readable string: a heading, then for each
/// check a `  [STATUS] label` line followed by its explanation's lines,
/// each indented by nine spaces.
pub fn format(report: &[CheckResult]) -> (s: String)
    ensures
        s@ == spec_format(report@.map_values(|c: CheckResult| c@)),
{
    let ghost cs = report@.map_values(|c: CheckResult| c@);
    proof { reveal_strlit("borderless doctor:\n\n"); }
    let mut s = String::from_str("borderless doctor:\n\n");
    let mut i: usize = 0;
    while i < report.len()
        invariant
            0 <= i <= report@.len(),
            cs == report@.map_values(|c: CheckResult| c@),
            s@ == spec_report_heading() + spec_checks_text(cs.take(i as int)),
        decreases report.len() - i,
    {
        let c = &report[i];
        let ghost before = s@;
        proof {
            reveal_strlit("  [");
            reveal_strlit("] ");
            reveal_strlit("\n");
        }
        s.append("  [");
        s.append(c.status.glyph());
        s.append("] ");
        s.append(c.name);
        s.append("\n");
        let ghost mid = s@;
        push_detail_lines(&mut s, c.detail.as_str());
        proof {
            assert(cs.take(i + 1).drop_last() =~= cs.take(i as int));
            assert(cs.take(i + 1).last() == c@);
            assert(s@ =~= before + spec_check_text(c@));
        }
        i = i + 1;
    }
    assert(cs.take(report@.len() as int) =~= cs);
    s
}

/// The build and platform this binary runs as.
pub fn check_binary(version: &str, os: &str, arch: &str) -> (c: CheckResult)
    ensures
        c.name@ == "binary"@,
        c.status == Status::Pass,
        c.detail@ == "borderless v"@ + version@ + " on "@ + os@ + " ("@ + arch@ + ")"@,
{
    let mut d = String::from_str("borderless v");
    d.append(version);
    d.append(" on ");
    d.append(os);
    d.append(" (");
    d.append(arch);
    d.append(")");
    CheckResult { name: "binary", status: Status::Pass, detail: d }
}

/// The check shown when no role is configured yet.
pub fn unconfigured_role_check() -> (c: CheckResult)
    ensures
        c.name@ == "role"@,
        c.status == Status::Warn,
        c.detail@ == "no role configured. Run `borderless serve` (Hub) or `borderless connect <host:port>` (Spoke) once to set one."@,
{
    CheckResult {
        name: "role",
        status: Status::Warn,
        detail: String::from_str("no role configured. Run `borderless serve` (Hub) or `borderless connect <host:port>` (Spoke) once to set one."),
    }
}

/// The host operating system, as far as the checks care.
#[derive(Clone, Copy, Debug, PartialEq, Eq, Structural)]
pub enum HostOs {
    Linux,
    Macos,
    Windows,
    Other,
}

/// The firewall hint's text for a host and listening port.
pub open spec fn spec_firewall_detail(os: HostOs, port: u16) -> Seq<char> {
    let p = spec_decimal(port as nat);
    match os {
        HostOs::Linux => "If spokes can't reach this host, allow inbound TCP "@ + p + ".\ne.g.: sudo ufw allow "@ + p + "/tcp"@,
        HostOs::Macos => "If spokes can't reach this host, ensure System Settings \u{2192}\nNetwork \u{2192} Firewall allows the borderless binary on TCP "@ + p + "."@,
        HostOs::Windows => "If spokes can't reach this host, allow the borderless binary on\nthe private network. PowerShell as admin:\nNew-NetFirewallRule -DisplayName borderless -Direction Inbound \\\n-Protocol TCP -LocalPort "@ + p + " -Action Allow"@,
        HostOs::Other => "Allow inbound TCP "@ + p + "."@,
    }
}

/// A warning reminding the user to open the listening port.
pub fn check_firewall_hint(os: HostOs, port: u16) -> (c: CheckResult)
    ensures
        c.name@ == "firewall hint"@,
        c.status == Status::Warn,
        c.detail@ == spec_firewall_detail(os, port),
{
    let mut d = String::new();
    match os {
        HostOs::Linux => {
            d.append("If spokes can't reach this host, allow inbound TCP ");
            push_decimal(&mut d, port as u32);
            d.append(".\ne.g.: sudo ufw allow ");
            push_decimal(&mut d, port as u32);
            d.append("/tcp");
        },
        HostOs::Macos => {
            d.append("If spokes can't reach this host, ensure System Settings \u{2192}\nNetwork \u{2192} Firewall allows the borderless binary on TCP ");
            push_decimal(&mut d, port as u32);
            d.append(".");
        },
        HostOs::Windows => {
            d.append("If spokes can't reach this host, allow the borderless binary on\nthe private network. PowerShell as admin:\nNew-NetFirewallRule -DisplayName borderless -Direction Inbound \\\n-Protocol TCP -LocalPort ");
            push_decimal(&mut d, port as u32);
            d.append(" -Action Allow");
        },
        HostOs::Other => {
            d.append("Allow inbound TCP ");
            push_decimal(&mut d, port as u32);
            d.append(".");
        },
    }
    assert(d@ =~= spec_firewall_detail(os, port));
    CheckResult { name: "firewall hint", status: Status::Warn, detail: d }
}

/// Whether the hub's listening address could be bound: `bind_error` is
/// the error text of a failed attempt.
pub fn check_hub_bind(addr: &str, bind_error: Option<&str>) -> (c: CheckResult)
    ensures
        c.name@ == "hub bind"@,
        bind_error is None ==> c.status == Status::Pass && c.detail@ == "can bind "@ + addr@,
        bind_error matches Some(e) ==> c.status == Status::Fail && c.detail@ == "cannot bind "@ + addr@ + ": "@ + e@,
{
    match bind_error {
        None => {
            let mut d = String::from_str("can bind ");
            d.append(addr);
            CheckResult { name: "hub bind", status: Status::Pass, detail: d }
        },
        Some(e) => {
            let mut d = String::from_str("cannot bind ");
            d.append(addr);
            d.append(": ");
            d.append(e);
            CheckResult { name: "hub bind", status: Status::Fail, detail: d }
        },
    }
}

/// Whether a spoke knows where its hub is.
pub fn check_spoke_addr(server_addr: Option<&str>) -> (c: CheckResult)
    ensures
        c.name@ == "spoke server addr"@,
        server_addr matches Some(a) ==> c.status == Status::Pass && c.detail@ == "server_addr = "@ + a@,
        server_addr is None ==> c.status == Status::Fail && c.detail@ == "server_addr unset. Run `borderless connect <host:port>` once."@,
{
    match server_addr {
        Some(a) => {
            let mut d = String::from_str("server_addr = ");
            d.append(a);
            CheckResult { name: "spoke server addr", status: Status::Pass, detail: d }
        },
        None => CheckResult {
            name: "spoke server addr",
            status: Status::Fail,
            detail: String::from_str("server_addr unset. Run `borderless connect <host:port>` once."),
        },
    }
}

/// What became of trying to reach the hub over TCP.
pub enum Reachability {
    /// No hub address is configured, so nothing was tried.
    NoAddress,
    /// The address did not resolve; the resolver's error text.
    ResolveFailed(String),
    /// A resolved address accepted a connection within the timeout.
    Connected(String),
    /// No resolved address accepted a connection within the timeout.
    Unreachable,
}

/// Whether the spoke's hub answered, given what the attempt found.
pub fn check_spoke_reachable(addr: &str, outcome: Reachability) -> (c: CheckResult)
    ensures
        c.name@ == "spoke reachability"@,
        outcome is NoAddress ==> c.status == Status::Warn && c.detail@ == "skipped (no server_addr)"@,
        outcome matches Reachability::ResolveFailed(e) ==> c.status == Status::Fail && c.detail@ == "resolve "@ + addr@ + " failed: "@ + e@,
        outcome matches Reachability::Connected(sa) ==> c.status == Status::Pass && c.detail@ == "TCP connect to "@ + sa@ + " succeeded within 5 s"@,
        outcome is Unreachable ==> c.status == Status::Fail && c.detail@ == "could not TCP-connect to "@ + addr@ + " within 5 s.\nCheck that the hub is running, the firewall allows the port,\nand that the spoke and hub share a routable network."@,
{
    match outcome {
        Reachability::NoAddress => CheckResult {
            name: "spoke reachability",
            status: Status::Warn,
            detail: String::from_str("skipped (no server_addr)"),
        },
        Reachability::ResolveFailed(e) => {
            let mut d = String::from_str("resolve ");
            d.append(addr);
            d.append(" failed: ");
            d.append(e.as_str());
            CheckResult { name: "spoke reachability", status: Status::Fail, detail: d }
        },
        Reachability::Connected(sa) => {
            let mut d = String::from_str("TCP connect to ");
            d.append(sa.as_str());
            d.append(" succeeded within 5 s");
            CheckResult { name: "spoke reachability", status: Status::Pass, detail: d }
        },
        Reachability::Unreachable => {
            let mut d = String::from_str("could not TCP-connect to ");
            d.append(addr);
            d.append(" within 5 s.\nCheck that the hub is running, the firewall allows the port,\nand that the spoke and hub share a routable network.");
            CheckResult { name: "spoke reachability", status: Status::Fail, detail: d }
        },
    }
}

/// One entry of the doctor report, in the order the report lists them.
#[derive(Clone, Copy, Debug, PartialEq, Eq, Structural)]
pub enum ReportItem {
    /// The build and platform ([`check_binary`]).
    Binary,
    /// The host platform's own checks (the `linux`, `macos` or `windows`
    /// module's `checks`).
    Platform,
    /// Whether the hub's address can be bound ([`check_hub_bind`]).
    HubBind,
    /// The firewall reminder ([`check_firewall_hint`]).
    FirewallHint,
    /// Whether a hub address is configured ([`check_spoke_addr`]).
    SpokeAddr,
    /// Whether the hub answers ([`check_spoke_reachable`]).
    SpokeReachability,
    /// No role is configured ([`unconfigured_role_check`]).
    RoleUnset,
}

/// The report's entries for a role: the binary and platform checks, then
/// the hub's bind check and firewall hint, or the spoke's address and
/// reachability checks, or the reminder to pick a role.
pub open spec fn spec_report_plan(role: RoleKind) -> Seq<ReportItem> {
    match role {
        RoleKind::Hub => seq![ReportItem::Binary, ReportItem::Platform, ReportItem::HubBind, ReportItem::FirewallHint],
        RoleKind::Spoke => seq![ReportItem::Binary, ReportItem::Platform, ReportItem::SpokeAddr, ReportItem::SpokeReachability],
        RoleKind::Unconfigured => seq![ReportItem::Binary, ReportItem::Platform, ReportItem::RoleUnset],
    }
}

/// The checks the doctor runs for a configured role, in report order.
pub fn report_plan(role: RoleKind) -> (plan: Vec<ReportItem>)
    ensures
        plan@ == spec_report_plan(role),
{
    let plan = match role {
        RoleKind::Hub => vec![ReportItem::Binary, ReportItem::Platform, ReportItem::HubBind, ReportItem::FirewallHint],
        RoleKind::Spoke => vec![ReportItem::Binary, ReportItem::Platform, ReportItem::SpokeAddr, ReportItem::SpokeReachability],
        RoleKind::Unconfigured => vec![ReportItem::Binary, ReportItem::Platform, ReportItem::RoleUnset],
    };
    assert(plan@ =~= spec_report_plan(role));
    plan
}

} // verus!
