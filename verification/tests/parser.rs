use nvda_url::parser::UpdateInfo;
use nvda_url::text::trim_str;
use nvda_url::VersionType;

#[test]
fn parse_extracts_recognized_keys() {
    let info = UpdateInfo::parse(
        "launcherUrl: https://example/nvda.exe\nlauncherHash: abc123\nversion: 2024.1\n",
    );
    assert_eq!(info.launcher_url.as_deref(), Some("https://example/nvda.exe"));
    assert_eq!(info.launcher_hash.as_deref(), Some("abc123"));
    assert_eq!(info.version.as_deref(), Some("2024.1"));
}

#[test]
fn parse_last_binding_wins() {
    let info = UpdateInfo::parse("launcherUrl: first\nlauncherUrl: second\n");
    assert_eq!(info.launcher_url.as_deref(), Some("second"));
}

#[test]
fn parse_ignores_malformed_and_unknown_lines() {
    let info = UpdateInfo::parse("noise without separator\nfoo: bar\nlauncherUrl:nospace\n");
    assert_eq!(info.launcher_url, None);
    assert_eq!(info.launcher_hash, None);
    assert_eq!(info.version, None);
}

#[test]
fn parse_of_empty_body_finds_nothing() {
    let info = UpdateInfo::parse("");
    assert_eq!(info.launcher_url, None);
    assert_eq!(info.launcher_hash, None);
    assert_eq!(info.version, None);
}

#[test]
fn stable_version_synthesizes_canonical_url() {
    let info = UpdateInfo::parse("version: 2024.1\n");
    let res = info.resolution_for(VersionType::Stable).unwrap();
    assert_eq!(
        res.url,
        "https://download.nvaccess.org/download/releases/2024.1/nvda_2024.1.exe"
    );
    assert_eq!(res.hash, None);
}

#[test]
fn version_resolution_is_insensitive_to_padding() {
    let bare = UpdateInfo::parse("version: 2024.1\n")
        .resolution_for(VersionType::Beta)
        .unwrap();
    let padded = UpdateInfo::parse("version:   \t2024.1 \t \n")
        .resolution_for(VersionType::Beta)
        .unwrap();
    assert_eq!(bare, padded);
    assert_eq!(
        padded.url,
        "https://download.nvaccess.org/download/releases/2024.1/nvda_2024.1.exe"
    );
}

#[test]
fn alpha_launcher_url_is_returned_verbatim() {
    let info = UpdateInfo::parse("launcherUrl: https://example/foo.exe\n");
    let res = info.resolution_for(VersionType::Alpha).unwrap();
    assert_eq!(res.url, "https://example/foo.exe");
    assert_eq!(res.hash, None);
}

#[test]
fn alpha_without_launcher_url_is_absent() {
    let info = UpdateInfo::parse("version: 2024.1\n");
    assert_eq!(info.resolution_for(VersionType::Alpha), None);
}

#[test]
fn body_without_expected_keys_resolves_to_absence() {
    let info = UpdateInfo::parse("something else entirely\n");
    assert_eq!(info.resolution_for(VersionType::Stable), None);
    assert_eq!(info.resolution_for(VersionType::Beta), None);
    assert_eq!(info.resolution_for(VersionType::Alpha), None);
}

#[test]
fn direct_launcher_url_is_preferred_over_version() {
    let info = UpdateInfo::parse("version: 2024.1\nlauncherUrl: https://example/direct.exe\n");
    let res = info.resolution_for(VersionType::Stable).unwrap();
    assert_eq!(res.url, "https://example/direct.exe");
}

#[test]
fn hash_is_attached_when_present() {
    let info = UpdateInfo::parse("launcherUrl: https://example/a.exe\nlauncherHash: deadbeef\n");
    let res = info.resolution_for(VersionType::Alpha).unwrap();
    assert_eq!(res.hash.as_deref(), Some("deadbeef"));
}

#[test]
fn version_tolerates_a_carriage_return() {
    let res = UpdateInfo::parse("version: 2024.1\r\n")
        .resolution_for(VersionType::Stable)
        .unwrap();
    assert_eq!(
        res.url,
        "https://download.nvaccess.org/download/releases/2024.1/nvda_2024.1.exe"
    );
}

#[test]
fn trim_strips_blanks_on_both_sides() {
    assert_eq!(trim_str("  \t2024.1 \r "), "2024.1");
    assert_eq!(trim_str("2024.1"), "2024.1");
    assert_eq!(trim_str("   \t"), "");
    assert_eq!(trim_str(""), "");
}

#[test]
fn channel_query_parameters() {
    assert_eq!(VersionType::Stable.as_str(), "stable");
    assert_eq!(VersionType::Beta.as_str(), "beta");
    assert_eq!(VersionType::Alpha.as_str(), "snapshot:alpha");
}
