use vstd::prelude::*;

use crate::enumerate::{entry_block, Snapshot};
use crate::privilege::{privilege_check, probe_elevated, TokenProbe};

verus! {

/// Everything the host answers during one run, gathered as plain values:
/// whether the platform matched, what the token calls reported, whether
/// the device snapshot handle came back valid, and the snapshot's entries.
pub struct HostModel {
    pub os_is_windows: bool,
    pub token: TokenProbe,
    pub snapshot_valid: bool,
    pub snapshot: Snapshot,
}

/// The platform gate: nothing to report on the expected platform, the
/// diagnostic line otherwise.
pub fn platform_gate(os_is_windows: bool) -> (r: Option<String>)
    ensures
        r is None <==> os_is_windows,
        !os_is_windows ==> (r matches Some(m) && m@ == "OS isn't windows!"@),
{
    if os_is_windows {
        None
    } else {
        Some(String::from_str("OS isn't windows!"))
    }
}

/// The privilege gate: nothing to report for an elevated process, the
/// diagnostic line otherwise.
pub fn privilege_gate(elevated: bool) -> (r: Option<String>)
    ensures
        r is None <==> elevated,
        !elevated ==> (r matches Some(m) && m@ == "This program needs root priviledges"@),
{
    if elevated {
        None
    } else {
        Some(String::from_str("This program needs root priviledges"))
    }
}

/// The snapshot gate: nothing to report for a valid snapshot handle, the
/// diagnostic line otherwise.
pub fn snapshot_gate(snapshot_valid: bool) -> (r: Option<String>)
    ensures
        r is None <==> snapshot_valid,
        !snapshot_valid ==> (r matches Some(m) && m@ == "Failed to get device list"@),
{
    if snapshot_valid {
        None
    } else {
        Some(String::from_str("Failed to get device list"))
    }
}

/// Run the whole tool over the host's answers: gate on platform, then on
/// privilege, then on the snapshot handle, and finally walk the snapshot,
/// one report block per device. Each failed gate yields its single
/// diagnostic line and exit status one; a full walk yields every block in
/// enumeration order and exit status zero.
pub fn run_model(host: &HostModel) -> (r: (Vec<String>, i32))
    ensures
        !host.os_is_windows ==> (r.1 == 1 && r.0@.len() == 1 && r.0@[0]@
            == "OS isn't windows!"@),
        host.os_is_windows && !probe_elevated(host.token) ==> (r.1 == 1 && r.0@.len() == 1
            && r.0@[0]@ == "This program needs root priviledges"@),
        host.os_is_windows && probe_elevated(host.token) && !host.snapshot_valid ==> (r.1 == 1
            && r.0@.len() == 1 && r.0@[0]@ == "Failed to get device list"@),
        host.os_is_windows && probe_elevated(host.token) && host.snapshot_valid ==> (r.1 == 0
            && r.0@.len() == host.snapshot.entries@.len() && (forall|i: int|
            0 <= i < r.0@.len() ==> r.0@[i]@ == entry_block(host.snapshot.entries@[i]))),
{
    let mut out: Vec<String> = Vec::new();
    if let Some(m) = platform_gate(host.os_is_windows) {
        out.push(m);
        return (out, 1);
    }
    let outcome = privilege_check(&host.token);
    if let Some(m) = privilege_gate(outcome.elevated) {
        out.push(m);
        return (out, 1);
    }
    if let Some(m) = snapshot_gate(host.snapshot_valid) {
        out.push(m);
        return (out, 1);
    }
    let blocks = host.snapshot.report_all();
    (blocks, 0)
}

} // verus!
