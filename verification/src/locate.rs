//! Locating an already-acquired binary. Location recomputes platform,
//! filename and install directory exactly as acquisition does and
//! reports the path only when the host finds a filesystem entry there.
//! Every internal failure is absorbed into the absent result: a caller
//! cannot tell an unsupported platform from a binary not yet acquired.

use crate::paths::{has_parent, join_path, parent_dir, spec_install_path};
use crate::platform::{is_supported, Platform};
use crate::provision::{plan_ok, AcquirePlan};
use vstd::prelude::*;

verus! {

/// Whether location can compute a path at all for this platform and
/// host executable path.
pub open spec fn locatable(p: Platform, exe: Seq<char>) -> bool {
    is_supported(p) && has_parent(exe)
}

/// The path the binary would occupy if it were present: exactly the
/// destination an acquisition writes to. Absent when the platform is
/// unsupported or the executable path has no parent.
pub fn candidate_path(p: Platform, exe_path: &str) -> (r: Option<String>)
    ensures
        (r is Some) <==> locatable(p, exe_path@),
        r matches Some(path) ==> path@ == spec_install_path(p, exe_path@),
{
    let filename: &str = match p {
        Platform::Windows => "yt-dlp.exe",
        Platform::MacOs => "yt-dlp",
        Platform::Linux => "yt-dlp",
        Platform::Unsupported => {
            return None;
        },
    };
    match parent_dir(exe_path) {
        Some(dir) => Some(join_path(dir, p, filename)),
        None => None,
    }
}

/// Reports where the binary is installed, given whether the host found
/// a filesystem entry at the candidate path. Never triggers an
/// acquisition: before one has put the binary in place the host finds
/// no entry and the result is absent.
pub fn locate(p: Platform, exe_path: &str, binary_present: bool) -> (r: Option<String>)
    ensures
        (r is Some) <==> (locatable(p, exe_path@) && binary_present),
        r matches Some(path) ==> path@ == spec_install_path(p, exe_path@),
{
    if !binary_present {
        return None;
    }
    candidate_path(p, exe_path)
}

/// Round trip between acquisition and location: on any platform and
/// host executable path on which acquisition can plan at all, the
/// destination of every well-formed plan is exactly the path location
/// computes. So after a successful acquisition puts the file in place,
/// `locate` reports the very path `acquire` wrote to.
pub proof fn lemma_locate_finds_acquired(p: Platform, exe: Seq<char>, plan: AcquirePlan)
    requires
        is_supported(p),
        has_parent(exe),
        plan_ok(p, exe, plan),
    ensures
        locatable(p, exe),
        plan.dest_path@ == spec_install_path(p, exe),
{
}

} // verus!
