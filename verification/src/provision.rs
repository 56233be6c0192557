//! Planning an acquisition: which URL to fetch, where to write the
//! bytes, and which permission bits to apply afterwards. The host
//! carries the plan out (network fetch, file write, permission change)
//! and renders the success message from it.

use crate::error::ToolError;
use crate::paths::{has_parent, join_path, parent_dir, spec_install_path};
use crate::platform::{
    is_posix, is_supported, resolve, spec_filename, spec_source_url, Platform,
};
use vstd::prelude::*;

verus! {

/// The POSIX permission mode an acquired binary receives:
/// owner read/write/execute, group and other read/execute.
pub const EXECUTABLE_MODE: u32 = 0o755;

/// Everything the host needs to carry one acquisition out: fetch
/// `source_url`, write the body to `dest_path` (overwriting any file
/// there), and, when `set_posix_mode` says so, set the file's
/// permission bits to `posix_mode`.
#[derive(Debug)]
pub struct AcquirePlan {
    pub filename: String,
    pub source_url: String,
    pub dest_path: String,
    pub set_posix_mode: bool,
    pub posix_mode: u32,
}

/// What a well-formed plan for platform `p` and host executable path
/// `exe` holds: the platform's filename and source URL, the install
/// path both acquisition and location compute, and the POSIX
/// permission step exactly on POSIX platforms.
pub open spec fn plan_ok(p: Platform, exe: Seq<char>, plan: AcquirePlan) -> bool {
    &&& plan.filename@ == spec_filename(p)
    &&& plan.source_url@ == spec_source_url(p)
    &&& plan.dest_path@ == spec_install_path(p, exe)
    &&& plan.set_posix_mode == is_posix(p)
    &&& plan.posix_mode == EXECUTABLE_MODE
}

/// Plans an acquisition for the given platform and host executable
/// path. Fails with `UnsupportedPlatform` on an unrecognized platform
/// and with `DirectoryResolutionError` when the executable path has no
/// parent directory; otherwise the returned plan is well formed.
pub fn acquire_plan(p: Platform, exe_path: &str) -> (r: Result<AcquirePlan, ToolError>)
    ensures
        !is_supported(p) ==> (r matches Err(e) && e is UnsupportedPlatform),
        is_supported(p) && !has_parent(exe_path@) ==> (r matches Err(e)
            && e is DirectoryResolutionError),
        is_supported(p) && has_parent(exe_path@) ==> (r matches Ok(plan) && plan_ok(
            p,
            exe_path@,
            plan,
        )),
{
    let descriptor = match resolve(p) {
        Ok(d) => d,
        Err(e) => {
            return Err(e);
        },
    };
    let dir = match parent_dir(exe_path) {
        Some(d) => d,
        None => {
            return Err(ToolError::DirectoryResolutionError);
        },
    };
    let dest_path = join_path(dir, p, descriptor.filename.as_str());
    Ok(
        AcquirePlan {
            filename: descriptor.filename,
            source_url: descriptor.source_url,
            dest_path,
            set_posix_mode: !(p == Platform::Windows),
            posix_mode: EXECUTABLE_MODE,
        },
    )
}

/// The message a successful acquisition reports, naming the filename
/// and the destination path.
pub fn acquire_success_message(plan: &AcquirePlan) -> (r: String)
    ensures
        r@ == "Successfully downloaded "@ + plan.filename@ + " to "@ + plan.dest_path@,
{
    let s = String::from_str("Successfully downloaded ");
    let mut s = s.concat(plan.filename.as_str());
    s.append(" to ");
    s.append(plan.dest_path.as_str());
    s
}

} // verus!
