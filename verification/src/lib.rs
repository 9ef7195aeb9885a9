//! Resolution of NVDA download URLs.
//!
//! The library has two parts: a parser for the plaintext bodies that the
//! NV Access update-check endpoint returns, and a per-channel cache that
//! decides when a fresh upstream fetch is needed. Both are pure: the HTTP
//! request itself is the caller's job, and the cache is driven by explicit
//! timestamps.

pub mod channel;
pub mod parser;
pub mod resolver;
pub mod text;

pub use channel::VersionType;
pub use parser::{ResolutionResult, UpdateInfo};
pub use resolver::{CacheEntry, NvdaUrl, ResolveStep, CACHE_TTL_MS};

use vstd::prelude::*;

verus! {

/// Direct download link for NVDA 2017.3, the last release for Windows XP.
/// Served unconditionally: no cache, no upstream call.
pub const XP_URL: &'static str = "https://download.nvaccess.org/releases/2017.3/nvda_2017.3.exe";

/// Direct download link for NVDA 2023.3.4, the last release for Windows 7.
/// Served unconditionally: no cache, no upstream call.
pub const WIN7_URL: &'static str =
    "https://download.nvaccess.org/releases/2023.3.4/nvda_2023.3.4.exe";

} // verus!
