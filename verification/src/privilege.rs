use vstd::prelude::*;

verus! {

/// The observed outcomes of the operating-system calls behind a privilege
/// check: whether the process token could be opened with query access,
/// whether the elevation query on that token succeeded, and the raw
/// elevation flag the query reported.
pub struct TokenProbe {
    pub open_succeeded: bool,
    pub query_succeeded: bool,
    pub elevation_flag: u32,
}

/// What a privilege check decides and does: the elevation verdict, and how
/// many times the acquired token handle is released on the way out.
pub struct PrivilegeOutcome {
    pub elevated: bool,
    pub releases: u32,
}

/// A probe amounts to an elevated process exactly when the token was opened,
/// the elevation query succeeded, and the reported flag is non-zero. Any
/// failure along the way reads as "not elevated": the check never fails its
/// caller.
pub open spec fn probe_elevated(p: TokenProbe) -> bool {
    p.open_succeeded && p.query_succeeded && p.elevation_flag != 0
}

/// Decide elevation from a probe, mirroring the token lifecycle: open,
/// query, release. The verdict is `false` whenever token acquisition or the
/// elevation query failed, and the token handle is released exactly once
/// when it was acquired and never otherwise.
pub fn privilege_check(probe: &TokenProbe) -> (r: PrivilegeOutcome)
    ensures
        r.elevated == probe_elevated(*probe),
        r.releases == (if probe.open_succeeded { 1u32 } else { 0u32 }),
{
    let mut elevated = false;
    let mut releases: u32 = 0;
    if probe.open_succeeded {
        if probe.query_succeeded {
            elevated = probe.elevation_flag != 0;
        }
        releases = 1;
    }
    PrivilegeOutcome { elevated, releases }
}

} // verus!
