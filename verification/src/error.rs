//! Error kinds for provisioning, locating and invoking the tool.

use vstd::prelude::*;

verus! {

/// Everything that can go wrong while acquiring, locating or invoking
/// the tool. Variants that report a lower-level failure (network,
/// filesystem, spawn) carry that failure's description; a failed
/// invocation carries the child's captured standard-error text.
#[derive(Debug, PartialEq, Eq)]
pub enum ToolError {
    UnsupportedPlatform,
    DirectoryResolutionError,
    NetworkError(String),
    FilesystemError(String),
    NotFound,
    EmptyInput,
    ProcessSpawnError(String),
    ProcessFailure(String),
}

impl ToolError {
    /// The text the host displays for this error.
    pub open spec fn spec_message(&self) -> Seq<char> {
        match self {
            ToolError::UnsupportedPlatform => "Unsupported operating system"@,
            ToolError::DirectoryResolutionError => "Cannot determine current directory"@,
            ToolError::NetworkError(d) => d@,
            ToolError::FilesystemError(d) => d@,
            ToolError::NotFound => "yt-dlp not found"@,
            ToolError::EmptyInput => "URL is empty"@,
            ToolError::ProcessSpawnError(d) => d@,
            ToolError::ProcessFailure(t) => "Download failed: "@ + t@,
        }
    }

    /// Renders the error as the descriptive text the host consumes;
    /// a failed invocation's text embeds the captured standard error.
    pub fn message(&self) -> (r: String)
        ensures
            r@ == self.spec_message(),
    {
        match self {
            ToolError::UnsupportedPlatform => String::from_str("Unsupported operating system"),
            ToolError::DirectoryResolutionError => String::from_str(
                "Cannot determine current directory",
            ),
            ToolError::NetworkError(d) => d.clone(),
            ToolError::FilesystemError(d) => d.clone(),
            ToolError::NotFound => String::from_str("yt-dlp not found"),
            ToolError::EmptyInput => String::from_str("URL is empty"),
            ToolError::ProcessSpawnError(d) => d.clone(),
            ToolError::ProcessFailure(t) => String::from_str("Download failed: ").concat(
                t.as_str(),
            ),
        }
    }
}

} // verus!
