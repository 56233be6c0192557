//! Maps the host operating system identity to the binary's name and
//! acquisition source.

use crate::error::ToolError;
use vstd::prelude::*;

verus! {

/// The operating system the host runs on, derived once per call from
/// the host's operating-system identity and immutable for the call.
#[derive(Clone, Copy, Debug, PartialEq, Eq, Structural)]
pub enum Platform {
    Windows,
    MacOs,
    Linux,
    Unsupported,
}

/// The (filename, source URL) pair that acquisition and location agree on,
/// determined by the platform alone.
#[derive(Debug)]
pub struct BinaryDescriptor {
    pub filename: String,
    pub source_url: String,
}

pub open spec fn is_supported(p: Platform) -> bool {
    p != Platform::Unsupported
}

/// Whether the platform applies POSIX permission bits to executables.
pub open spec fn is_posix(p: Platform) -> bool {
    p == Platform::MacOs || p == Platform::Linux
}

/// The platform a given operating-system identity denotes.
pub open spec fn spec_platform_of(os: Seq<char>) -> Platform {
    if os == "windows"@ {
        Platform::Windows
    } else if os == "macos"@ {
        Platform::MacOs
    } else if os == "linux"@ {
        Platform::Linux
    } else {
        Platform::Unsupported
    }
}

/// The name under which the binary is stored: only Windows adds an
/// executable extension.
pub open spec fn spec_filename(p: Platform) -> Seq<char> {
    if p == Platform::Windows {
        "yt-dlp.exe"@
    } else {
        "yt-dlp"@
    }
}

pub open spec fn spec_base_url() -> Seq<char> {
    "https://github.com/yt-dlp/yt-dlp/releases/latest/download"@
}

/// The path appended to the base URL: `.exe` suffix on Windows, `_macos`
/// suffix on macOS, no suffix on Linux.
pub open spec fn spec_url_tail(p: Platform) -> Seq<char> {
    match p {
        Platform::Windows => "/yt-dlp.exe"@,
        Platform::MacOs => "/yt-dlp_macos"@,
        _ => "/yt-dlp"@,
    }
}

pub open spec fn spec_source_url(p: Platform) -> Seq<char> {
    spec_base_url() + spec_url_tail(p)
}

/// Character-for-character string equality.
pub fn str_eq(a: &str, b: &str) -> (r: bool)
    ensures
        r == (a@ == b@),
{
    let alen = a.unicode_len();
    let blen = b.unicode_len();
    if alen != blen {
        return false;
    }
    let mut i: usize = 0;
    while i < alen
        invariant
            alen == a@.len(),
            alen == b@.len(),
            i <= alen,
            forall|j: int| 0 <= j < i ==> a@[j] == b@[j],
        decreases alen - i,
    {
        if a.get_char(i) != b.get_char(i) {
            return false;
        }
        i = i + 1;
    }
    proof {
        assert(a@ =~= b@);
    }
    true
}

/// Derives the platform from the operating-system identity the host reads.
pub fn platform_of(os: &str) -> (p: Platform)
    ensures
        p == spec_platform_of(os@),
{
    if str_eq(os, "windows") {
        Platform::Windows
    } else if str_eq(os, "macos") {
        Platform::MacOs
    } else if str_eq(os, "linux") {
        Platform::Linux
    } else {
        Platform::Unsupported
    }
}

/// Resolves a platform to the descriptor acquisition works from, or
/// reports that the platform is unsupported. The result depends on the
/// platform alone, so acquisition and location stay consistent.
pub fn resolve(p: Platform) -> (r: Result<BinaryDescriptor, ToolError>)
    ensures
        is_supported(p) ==> (r matches Ok(d) && d.filename@ == spec_filename(p)
            && d.source_url@ == spec_source_url(p)),
        !is_supported(p) ==> (r matches Err(e) && e is UnsupportedPlatform),
{
    match p {
        Platform::Windows => Ok(
            BinaryDescriptor {
                filename: String::from_str("yt-dlp.exe"),
                source_url: String::from_str(
                    "https://github.com/yt-dlp/yt-dlp/releases/latest/download",
                ).concat("/yt-dlp.exe"),
            },
        ),
        Platform::MacOs => Ok(
            BinaryDescriptor {
                filename: String::from_str("yt-dlp"),
                source_url: String::from_str(
                    "https://github.com/yt-dlp/yt-dlp/releases/latest/download",
                ).concat("/yt-dlp_macos"),
            },
        ),
        Platform::Linux => Ok(
            BinaryDescriptor {
                filename: String::from_str("yt-dlp"),
                source_url: String::from_str(
                    "https://github.com/yt-dlp/yt-dlp/releases/latest/download",
                ).concat("/yt-dlp"),
            },
        ),
        Platform::Unsupported => Err(ToolError::UnsupportedPlatform),
    }
}

} // verus!
