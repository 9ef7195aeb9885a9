//! The per-channel resolution cache.
//!
//! `NvdaUrl` keeps one slot per release channel. A resolve is split at the
//! I/O boundary: `get_url` takes the decision — serve the fresh cache entry,
//! or name the upstream check URL to fetch — and `refresh` applies the
//! outcome of that fetch. The caller owns the clock and the HTTP request;
//! serializing concurrent callers (so an expired channel is fetched once, not
//! N times) is also the caller's lock to take, and the laws below state what
//! that serialization buys.

use vstd::prelude::*;
use vstd::string::StringExecFns;

use crate::channel::{param_of, VersionType};
use crate::parser::{
    clone_opt_string, resolution_of, view_opt_resolution, view_opt_string, ResolutionResult,
    ResolutionView, UpdateInfo,
};

verus! {

/// How long a cache entry stays fresh, in milliseconds.
pub const CACHE_TTL_MS: u64 = 30000;

/// One cached resolution together with the time it was fetched, on the
/// caller's clock.
#[derive(Debug)]
pub struct CacheEntry {
    pub url: String,
    pub hash: Option<String>,
    pub fetched_at: u64,
}

/// The view of a `CacheEntry`.
pub struct EntryView {
    pub url: Seq<char>,
    pub hash: Option<Seq<char>>,
    pub fetched_at: u64,
}

impl View for CacheEntry {
    type V = EntryView;

    open spec fn view(&self) -> EntryView {
        EntryView { url: self.url@, hash: view_opt_string(self.hash), fetched_at: self.fetched_at }
    }
}

/// The view of an optional cache entry.
pub open spec fn view_opt_entry(o: Option<CacheEntry>) -> Option<EntryView> {
    match o {
        Some(e) => Some(e@),
        None => None,
    }
}

/// The view of an optional body.
pub open spec fn view_opt_str(o: Option<&str>) -> Option<Seq<char>> {
    match o {
        Some(s) => Some(s@),
        None => None,
    }
}

/// An entry is fresh at `now` when it was fetched no more than the TTL ago.
pub open spec fn is_fresh(e: EntryView, now: u64) -> bool {
    e.fetched_at <= now < e.fetched_at + CACHE_TTL_MS
}

/// What a resolve at `now` may serve from a cache slot without fetching:
/// the entry's data while it is fresh, nothing once it has expired.
pub open spec fn cached_of(e: Option<EntryView>, now: u64) -> Option<ResolutionView> {
    match e {
        Some(en) => if is_fresh(en, now) {
            Some(ResolutionView { url: en.url, hash: en.hash })
        } else {
            None
        },
        None => None,
    }
}

/// The result of one upstream fetch: `None` is a network or protocol
/// failure, `Some(body)` a body that the parser resolves for the channel.
/// Every failure collapses to absence.
pub open spec fn refresh_outcome(version_type: VersionType, body: Option<Seq<char>>) -> Option<
    ResolutionView,
> {
    match body {
        Some(b) => resolution_of(version_type, b),
        None => None,
    }
}

/// A cache slot after a refresh: replaced wholesale on success, untouched on
/// any failure — a failure is never cached.
pub open spec fn refreshed_entry(
    e: Option<EntryView>,
    version_type: VersionType,
    body: Option<Seq<char>>,
    now: u64,
) -> Option<EntryView> {
    match refresh_outcome(version_type, body) {
        Some(res) => Some(EntryView { url: res.url, hash: res.hash, fetched_at: now }),
        None => e,
    }
}

/// The upstream update-check URL for a channel.
pub open spec fn check_url_spec(version_type: VersionType) -> Seq<char> {
    "https://api.nvaccess.org/nvdaUpdateCheck?versionType="@ + param_of(version_type)
}

/// The upstream update-check URL for a channel.
pub fn check_url(version_type: VersionType) -> (r: String)
    ensures
        r@ == check_url_spec(version_type),
{
    String::from_str("https://api.nvaccess.org/nvdaUpdateCheck?versionType=").concat(
        version_type.as_str(),
    )
}

/// The decision one resolve takes: serve this result from the cache, or
/// fetch this upstream check URL and hand the outcome to `refresh`.
#[derive(Debug)]
pub enum ResolveStep {
    Cached(ResolutionResult),
    Fetch(String),
}

/// Caches NVDA download URLs, one slot per release channel.
pub struct NvdaUrl {
    stable: Option<CacheEntry>,
    beta: Option<CacheEntry>,
    alpha: Option<CacheEntry>,
}

impl NvdaUrl {
    /// The cache slot of a channel.
    pub closed spec fn entry_view(self, version_type: VersionType) -> Option<EntryView> {
        match version_type {
            VersionType::Stable => view_opt_entry(self.stable),
            VersionType::Beta => view_opt_entry(self.beta),
            VersionType::Alpha => view_opt_entry(self.alpha),
        }
    }

    /// What a resolve for a channel at `now_ms` may serve from the cache.
    pub open spec fn cached_at(self, version_type: VersionType, now_ms: u64) -> Option<
        ResolutionView,
    > {
        cached_of(self.entry_view(version_type), now_ms)
    }

    /// An empty cache: every channel misses until its first refresh.
    pub fn new() -> (r: NvdaUrl)
        ensures
            forall|vt: VersionType| r.entry_view(vt) is None,
    {
        NvdaUrl { stable: None, beta: None, alpha: None }
    }

    fn entry_ref(&self, version_type: VersionType) -> (r: &Option<CacheEntry>)
        ensures
            view_opt_entry(*r) == self.entry_view(version_type),
    {
        match version_type {
            VersionType::Stable => &self.stable,
            VersionType::Beta => &self.beta,
            VersionType::Alpha => &self.alpha,
        }
    }

    fn set_entry(&mut self, version_type: VersionType, entry: CacheEntry)
        ensures
            final(self).entry_view(version_type) == Some(entry@),
            forall|vt: VersionType|
                vt != version_type ==> final(self).entry_view(vt) == old(self).entry_view(vt),
    {
        match version_type {
            VersionType::Stable => {
                self.stable = Some(entry);
            },
            VersionType::Beta => {
                self.beta = Some(entry);
            },
            VersionType::Alpha => {
                self.alpha = Some(entry);
            },
        }
    }

    /// One resolve decision for a channel at `now_ms` (milliseconds on the
    /// caller's clock, the same clock `refresh` is given). A fresh cache
    /// entry is served as a copy; otherwise the caller fetches the returned
    /// check URL and hands the outcome to `refresh`.
    pub fn get_url(&self, version_type: VersionType, now_ms: u64) -> (r: ResolveStep)
        ensures
            match r {
                ResolveStep::Cached(res) => self.cached_at(version_type, now_ms) == Some(res@),
                ResolveStep::Fetch(u) => self.cached_at(version_type, now_ms) is None && u@
                    == check_url_spec(version_type),
            },
    {
        match self.entry_ref(version_type) {
            Some(e) => {
                if e.fetched_at <= now_ms && now_ms - e.fetched_at < CACHE_TTL_MS {
                    ResolveStep::Cached(
                        ResolutionResult { url: e.url.clone(), hash: clone_opt_string(&e.hash) },
                    )
                } else {
                    ResolveStep::Fetch(check_url(version_type))
                }
            },
            None => ResolveStep::Fetch(check_url(version_type)),
        }
    }

    /// Applies the outcome of an upstream fetch for a channel at `now_ms`.
    /// `None` stands for a network or protocol failure. A parsed result
    /// replaces the channel's slot, stamped `now_ms`, and is returned; on any
    /// failure nothing is cached, the previous entry — fresh, stale or
    /// missing — is left untouched, and the caller sees absence.
    pub fn refresh(&mut self, version_type: VersionType, body: Option<&str>, now_ms: u64) -> (r:
        Option<ResolutionResult>)
        ensures
            view_opt_resolution(r) == refresh_outcome(version_type, view_opt_str(body)),
            final(self).entry_view(version_type) == refreshed_entry(
                old(self).entry_view(version_type),
                version_type,
                view_opt_str(body),
                now_ms,
            ),
            forall|vt: VersionType|
                vt != version_type ==> final(self).entry_view(vt) == old(self).entry_view(vt),
            refresh_outcome(version_type, view_opt_str(body)) is None ==> *final(self) == *old(
                self,
            ),
    {
        match body {
            None => None,
            Some(text) => {
                let info = UpdateInfo::parse(text);
                match info.resolution_for(version_type) {
                    None => None,
                    Some(res) => {
                        let entry = CacheEntry {
                            url: res.url.clone(),
                            hash: clone_opt_string(&res.hash),
                            fetched_at: now_ms,
                        };
                        self.set_entry(version_type, entry);
                        Some(res)
                    },
                }
            },
        }
    }
}

impl Default for NvdaUrl {
    /// An empty cache: every channel misses until its first refresh.
    fn default() -> (r: NvdaUrl)
        ensures
            forall|vt: VersionType| r.entry_view(vt) is None,
    {
        NvdaUrl::new()
    }
}

/// Within the TTL the cache is stable: with no refresh in between, two
/// resolves at `t1` and `t2` inside the window of the same entry are both
/// served from the cache and return the same result, so no upstream request
/// is made by either — at most one upstream call backs both answers.
pub proof fn lemma_resolve_twice_within_ttl(
    c: NvdaUrl,
    version_type: VersionType,
    e: EntryView,
    t1: u64,
    t2: u64,
)
    requires
        c.entry_view(version_type) == Some(e),
        e.fetched_at <= t1 <= t2,
        t2 < e.fetched_at + CACHE_TTL_MS,
    ensures
        c.cached_at(version_type, t1) is Some,
        c.cached_at(version_type, t1) == c.cached_at(version_type, t2),
{
}

/// Once the TTL has elapsed — or nothing was ever fetched — a resolve cannot
/// be served from the cache, so it decides to fetch; after one successful
/// refresh at `t`, every resolve that re-checks within the TTL is served from
/// the cache again. Callers serialized over the cache therefore collapse an
/// expired channel into exactly one upstream request: the first fetches, the
/// rest re-check and hit.
pub proof fn lemma_expiry_single_refresh(
    c: NvdaUrl,
    version_type: VersionType,
    body: Seq<char>,
    t: u64,
    t2: u64,
    res: ResolutionView,
)
    requires
        match c.entry_view(version_type) {
            Some(e) => e.fetched_at + CACHE_TTL_MS <= t,
            None => true,
        },
        resolution_of(version_type, body) == Some(res),
        t <= t2 < t + CACHE_TTL_MS,
    ensures
        c.cached_at(version_type, t) is None,
        cached_of(
            refreshed_entry(c.entry_view(version_type), version_type, Some(body), t),
            t2,
        ) == Some(res),
{
    assert(res == ResolutionView { url: res.url, hash: res.hash });
}

/// A failure is never cached: a failed refresh leaves the slot as it was, so
/// a later resolve takes exactly the decision it would have taken before —
/// it retries the upstream immediately instead of serving a remembered
/// failure, and a stale entry is not silently served either.
pub proof fn lemma_failure_not_cached(
    e: Option<EntryView>,
    version_type: VersionType,
    body: Option<Seq<char>>,
    t: u64,
    t2: u64,
)
    requires
        refresh_outcome(version_type, body) is None,
    ensures
        refreshed_entry(e, version_type, body, t) == e,
        cached_of(refreshed_entry(e, version_type, body, t), t2) == cached_of(e, t2),
{
}

} // verus!
