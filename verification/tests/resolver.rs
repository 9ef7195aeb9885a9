use nvda_url::resolver::check_url;
use nvda_url::{NvdaUrl, ResolveStep, VersionType, CACHE_TTL_MS, WIN7_URL, XP_URL};

fn expect_fetch(step: ResolveStep) -> String {
    match step {
        ResolveStep::Fetch(u) => u,
        ResolveStep::Cached(res) => panic!("expected a fetch, got cached {:?}", res),
    }
}

fn expect_cached(step: ResolveStep) -> nvda_url::ResolutionResult {
    match step {
        ResolveStep::Cached(res) => res,
        ResolveStep::Fetch(u) => panic!("expected a cache hit, got fetch of {}", u),
    }
}

#[test]
fn empty_cache_decides_to_fetch_the_check_url() {
    let cache = NvdaUrl::new();
    assert_eq!(
        expect_fetch(cache.get_url(VersionType::Stable, 0)),
        "https://api.nvaccess.org/nvdaUpdateCheck?versionType=stable"
    );
    assert_eq!(
        expect_fetch(cache.get_url(VersionType::Beta, 0)),
        "https://api.nvaccess.org/nvdaUpdateCheck?versionType=beta"
    );
    assert_eq!(
        expect_fetch(cache.get_url(VersionType::Alpha, 0)),
        "https://api.nvaccess.org/nvdaUpdateCheck?versionType=snapshot:alpha"
    );
}

#[test]
fn check_url_matches_channel_parameter() {
    assert_eq!(
        check_url(VersionType::Alpha),
        "https://api.nvaccess.org/nvdaUpdateCheck?versionType=snapshot:alpha"
    );
}

#[test]
fn resolve_twice_within_ttl_is_served_from_cache() {
    let mut cache = NvdaUrl::new();
    let body = "launcherUrl: https://example/nvda.exe\n";
    let first = cache.refresh(VersionType::Stable, Some(body), 1_000).unwrap();
    assert_eq!(first.url, "https://example/nvda.exe");

    let again = expect_cached(cache.get_url(VersionType::Stable, 1_000));
    assert_eq!(again, first);

    let last_fresh = expect_cached(cache.get_url(VersionType::Stable, 1_000 + CACHE_TTL_MS - 1));
    assert_eq!(last_fresh, first);
}

#[test]
fn resolve_after_ttl_decides_to_fetch_again() {
    let mut cache = NvdaUrl::new();
    let body = "version: 2024.1\n";
    cache.refresh(VersionType::Beta, Some(body), 1_000).unwrap();

    expect_cached(cache.get_url(VersionType::Beta, 1_000 + CACHE_TTL_MS - 1));
    let url = expect_fetch(cache.get_url(VersionType::Beta, 1_000 + CACHE_TTL_MS));
    assert_eq!(url, "https://api.nvaccess.org/nvdaUpdateCheck?versionType=beta");
}

#[test]
fn refresh_success_replaces_the_entry() {
    let mut cache = NvdaUrl::new();
    cache
        .refresh(VersionType::Alpha, Some("launcherUrl: https://example/old.exe\n"), 0)
        .unwrap();
    cache
        .refresh(VersionType::Alpha, Some("launcherUrl: https://example/new.exe\n"), 10)
        .unwrap();
    let res = expect_cached(cache.get_url(VersionType::Alpha, 10));
    assert_eq!(res.url, "https://example/new.exe");
}

#[test]
fn network_failure_is_absent_and_not_cached() {
    let mut cache = NvdaUrl::new();
    assert_eq!(cache.refresh(VersionType::Stable, None, 0), None);
    // The failure was not cached: the next resolve retries at once.
    let url = expect_fetch(cache.get_url(VersionType::Stable, 0));
    assert_eq!(url, "https://api.nvaccess.org/nvdaUpdateCheck?versionType=stable");
}

#[test]
fn parse_failure_is_absent_and_not_cached() {
    let mut cache = NvdaUrl::new();
    assert_eq!(cache.refresh(VersionType::Stable, Some("no fields here\n"), 0), None);
    expect_fetch(cache.get_url(VersionType::Stable, 0));
}

#[test]
fn failed_refresh_leaves_the_previous_entry_untouched() {
    let mut cache = NvdaUrl::new();
    let first = cache
        .refresh(VersionType::Stable, Some("version: 2024.1\n"), 0)
        .unwrap();
    // A failure while the entry is still fresh does not disturb it.
    assert_eq!(cache.refresh(VersionType::Stable, None, 10), None);
    let res = expect_cached(cache.get_url(VersionType::Stable, 10));
    assert_eq!(res, first);
    // Once expired, the entry stays expired after another failure: the
    // resolve decides to fetch rather than serving the stale value.
    assert_eq!(cache.refresh(VersionType::Stable, None, CACHE_TTL_MS), None);
    expect_fetch(cache.get_url(VersionType::Stable, CACHE_TTL_MS));
}

#[test]
fn refresh_touches_only_its_channel() {
    let mut cache = NvdaUrl::new();
    cache
        .refresh(VersionType::Stable, Some("version: 2024.1\n"), 0)
        .unwrap();
    expect_cached(cache.get_url(VersionType::Stable, 0));
    expect_fetch(cache.get_url(VersionType::Beta, 0));
    expect_fetch(cache.get_url(VersionType::Alpha, 0));
}

#[test]
fn default_cache_is_empty() {
    let cache = NvdaUrl::default();
    expect_fetch(cache.get_url(VersionType::Stable, 0));
}

#[test]
fn legacy_constants_are_fixed_urls() {
    // Served unconditionally, with no cache and no upstream call.
    assert_eq!(XP_URL, "https://download.nvaccess.org/releases/2017.3/nvda_2017.3.exe");
    assert_eq!(
        WIN7_URL,
        "https://download.nvaccess.org/releases/2023.3.4/nvda_2023.3.4.exe"
    );
}

#[test]
fn ttl_is_thirty_seconds() {
    assert_eq!(CACHE_TTL_MS, 30_000);
}
