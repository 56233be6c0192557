//! Provisioning and invocation of a platform-specific media-download tool.
//!
//! The crate decides everything that can be decided from plain values:
//! which binary a platform needs and where to fetch it from, where the
//! binary lives on disk, what a download plan looks like, which command
//! line an invocation runs, and how a finished child process is reduced
//! to a success or failure result. The host application performs the
//! actual network, filesystem and process work and feeds the outcomes
//! back into these functions.

use vstd::prelude::*;

pub mod error;
pub mod invoke;
pub mod locate;
pub mod paths;
pub mod platform;
pub mod provision;

verus! {

/// Builds the greeting the host shows for a given name.
pub fn greet(name: &str) -> (r: String)
    ensures
        r@ == "Hello, "@ + name@ + "! You've been greeted from Rust123!"@,
{
    let s = String::from_str("Hello, ");
    let s = s.concat(name);
    s.concat("! You've been greeted from Rust123!")
}

} // verus!
