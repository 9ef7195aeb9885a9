//! The NVDA release channels and their upstream query parameters.

use vstd::prelude::*;

verus! {

/// Represents the different NVDA release channels.
#[derive(Clone, Copy, PartialEq, Eq, Hash, Debug, Structural)]
pub enum VersionType {
    /// Official stable releases.
    Stable,
    /// Pre-release beta versions.
    Beta,
    /// Snapshot alpha builds.
    Alpha,
}

/// The `versionType` query parameter the update-check endpoint expects
/// for each channel.
pub open spec fn param_of(version_type: VersionType) -> Seq<char> {
    match version_type {
        VersionType::Stable => "stable"@,
        VersionType::Beta => "beta"@,
        VersionType::Alpha => "snapshot:alpha"@,
    }
}

impl VersionType {
    /// The `versionType` query parameter for this channel.
    pub fn as_str(self) -> (r: &'static str)
        ensures
            r@ == param_of(self),
    {
        match self {
            VersionType::Alpha => "snapshot:alpha",
            VersionType::Beta => "beta",
            VersionType::Stable => "stable",
        }
    }
}

} // verus!
