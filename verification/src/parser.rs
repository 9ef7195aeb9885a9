//! Parser for the plaintext bodies of the NV Access update-check endpoint.
//!
//! A body is a sequence of lines separated by line feeds; a line of the
//! shape `key: value` binds a key, the value running verbatim from the first
//! `": "` to the end of the line. Recognized keys are `launcherUrl`,
//! `launcherHash` and `version`; malformed lines and unrecognized keys are
//! ignored, and the last binding of a key wins. Alpha snapshots carry a
//! direct launcher URL; stable and beta bodies usually carry a bare version
//! number, which is trimmed of surrounding blanks (spaces, tabs, carriage
//! returns) before the canonical download URL is synthesized from it.

use vstd::prelude::*;
use vstd::string::{StrSliceExecFns, StringExecFns};

use crate::channel::VersionType;
use crate::text::{
    find_newline, find_sep, first_newline, first_sep, is_blank, lemma_first_newline_at,
    lemma_first_newline_bounds, lemma_first_sep_at, lemma_first_sep_bounds, lemma_trim_padded,
    prefix_matches, sep_at, trim, trim_str,
};

verus! {

/// The view of an optional owned string.
pub open spec fn view_opt_string(o: Option<String>) -> Option<Seq<char>> {
    match o {
        Some(s) => Some(s@),
        None => None,
    }
}

/// The value bound by one line: the text after the first `": "`, provided the
/// text before it is exactly `key`.
pub open spec fn line_value(line: Seq<char>, key: Seq<char>) -> Option<Seq<char>> {
    let i = first_sep(line);
    if i < line.len() && line.take(i) == key {
        Some(line.skip(i + 2))
    } else {
        None
    }
}

/// The value bound to `key` by the last line of `body` that binds it.
pub open spec fn scan_value(body: Seq<char>, key: Seq<char>) -> Option<Seq<char>>
    decreases body.len(),
{
    let nl = first_newline(body);
    if 0 <= nl < body.len() {
        let rest = scan_value(body.skip(nl + 1), key);
        if rest is Some {
            rest
        } else {
            line_value(body.take(nl), key)
        }
    } else {
        line_value(body, key)
    }
}

/// The `launcherUrl` value of a body, if any.
pub open spec fn spec_launcher_url(body: Seq<char>) -> Option<Seq<char>> {
    scan_value(body, "launcherUrl"@)
}

/// The `launcherHash` value of a body, if any.
pub open spec fn spec_launcher_hash(body: Seq<char>) -> Option<Seq<char>> {
    scan_value(body, "launcherHash"@)
}

/// The `version` value of a body, if any.
pub open spec fn spec_version(body: Seq<char>) -> Option<Seq<char>> {
    scan_value(body, "version"@)
}

/// The canonical download URL for a bare version number.
pub open spec fn download_url_spec(version: Seq<char>) -> Seq<char> {
    "https://download.nvaccess.org/download/releases/"@ + version + "/nvda_"@ + version + ".exe"@
}

/// The value bound by one line, or nothing for a malformed or foreign line.
fn line_value_exec(line: &str, key: &str) -> (r: Option<String>)
    ensures
        view_opt_string(r) == line_value(line@, key@),
{
    let n: usize = line.unicode_len();
    let i: usize = find_sep(line);
    proof {
        lemma_first_sep_bounds(line@);
    }
    if i < n {
        if prefix_matches(line, i, key) {
            let value: &str = line.substring_char(i + 2, n);
            Some(value.to_owned())
        } else {
            None
        }
    } else {
        None
    }
}

/// The value bound to `key` by the last line of `body` that binds it.
fn scan_for(body: &str, key: &str) -> (r: Option<String>)
    ensures
        view_opt_string(r) == scan_value(body@, key@),
    decreases body@.len(),
{
    let n: usize = body.unicode_len();
    let nl: usize = find_newline(body);
    proof {
        lemma_first_newline_bounds(body@);
    }
    if nl < n {
        let rest: &str = body.substring_char(nl + 1, n);
        match scan_for(rest, key) {
            Some(v) => Some(v),
            None => line_value_exec(body.substring_char(0, nl), key),
        }
    } else {
        line_value_exec(body, key)
    }
}

/// The fields of one update-check body that matter here.
#[derive(Debug)]
pub struct UpdateInfo {
    /// A direct download URL for the launcher, if the body named one.
    pub launcher_url: Option<String>,
    /// An integrity hash for the launcher, if the body named one.
    pub launcher_hash: Option<String>,
    /// A bare version number, if the body named one.
    pub version: Option<String>,
}

impl UpdateInfo {
    /// Extracts the recognized `key: value` bindings from a body. Absence of
    /// a key is a normal outcome, not an error.
    pub fn parse(data: &str) -> (r: UpdateInfo)
        ensures
            view_opt_string(r.launcher_url) == spec_launcher_url(data@),
            view_opt_string(r.launcher_hash) == spec_launcher_hash(data@),
            view_opt_string(r.version) == spec_version(data@),
    {
        UpdateInfo {
            launcher_url: scan_for(data, "launcherUrl"),
            launcher_hash: scan_for(data, "launcherHash"),
            version: scan_for(data, "version"),
        }
    }
}

/// What one resolution hands back: a download URL and, when the upstream
/// supplied one, an integrity hash.
#[derive(Debug, PartialEq, Eq)]
pub struct ResolutionResult {
    pub url: String,
    pub hash: Option<String>,
}

/// The view of a `ResolutionResult`.
pub struct ResolutionView {
    pub url: Seq<char>,
    pub hash: Option<Seq<char>>,
}

impl View for ResolutionResult {
    type V = ResolutionView;

    open spec fn view(&self) -> ResolutionView {
        ResolutionView { url: self.url@, hash: view_opt_string(self.hash) }
    }
}

/// The view of an optional resolution.
pub open spec fn view_opt_resolution(r: Option<ResolutionResult>) -> Option<ResolutionView> {
    match r {
        Some(x) => Some(x@),
        None => None,
    }
}

/// The resolution a channel gets from parsed fields: a direct launcher URL is
/// preferred for every channel; without one, stable and beta synthesize the
/// canonical URL from the trimmed version number, while an alpha snapshot has
/// nothing to offer.
pub open spec fn resolution_of_fields(
    version_type: VersionType,
    launcher_url: Option<Seq<char>>,
    launcher_hash: Option<Seq<char>>,
    version: Option<Seq<char>>,
) -> Option<ResolutionView> {
    match launcher_url {
        Some(u) => Some(ResolutionView { url: u, hash: launcher_hash }),
        None => match version_type {
            VersionType::Alpha => None,
            VersionType::Stable | VersionType::Beta => match version {
                Some(v) => Some(
                    ResolutionView { url: download_url_spec(trim(v)), hash: launcher_hash },
                ),
                None => None,
            },
        },
    }
}

/// The resolution a channel gets from a raw body.
pub open spec fn resolution_of(version_type: VersionType, body: Seq<char>) -> Option<
    ResolutionView,
> {
    resolution_of_fields(
        version_type,
        spec_launcher_url(body),
        spec_launcher_hash(body),
        spec_version(body),
    )
}

/// A copy of an optional owned string.
pub fn clone_opt_string(o: &Option<String>) -> (r: Option<String>)
    ensures
        view_opt_string(r) == view_opt_string(*o),
{
    match o {
        Some(s) => Some(s.clone()),
        None => None,
    }
}

/// The canonical download URL for a bare version number.
pub fn download_url(version: &str) -> (r: String)
    ensures
        r@ == download_url_spec(version@),
{
    let mut url: String = String::from_str("https://download.nvaccess.org/download/releases/");
    url.append(version);
    url.append("/nvda_");
    url.append(version);
    url.append(".exe");
    url
}

impl UpdateInfo {
    /// The resolution these fields yield for a channel, if any.
    pub fn resolution_for(&self, version_type: VersionType) -> (r: Option<ResolutionResult>)
        ensures
            view_opt_resolution(r) == resolution_of_fields(
                version_type,
                view_opt_string(self.launcher_url),
                view_opt_string(self.launcher_hash),
                view_opt_string(self.version),
            ),
    {
        match &self.launcher_url {
            Some(u) => Some(
                ResolutionResult { url: u.clone(), hash: clone_opt_string(&self.launcher_hash) },
            ),
            None => match version_type {
                VersionType::Alpha => None,
                VersionType::Stable | VersionType::Beta => match &self.version {
                    Some(v) => {
                        let trimmed: &str = trim_str(v.as_str());
                        Some(
                            ResolutionResult {
                                url: download_url(trimmed),
                                hash: clone_opt_string(&self.launcher_hash),
                            },
                        )
                    },
                    None => None,
                },
            },
        }
    }
}

/// Scanning a body of a single line (closed by one line feed) is scanning
/// that line.
proof fn lemma_scan_one_line(line: Seq<char>, key: Seq<char>)
    requires
        forall|j: int| 0 <= j < line.len() ==> line[j] != '\n',
    ensures
        scan_value(line + "\n"@, key) == line_value(line, key),
{
    reveal_strlit("\n");
    let body = line + "\n"@;
    assert(body.len() == line.len() + 1);
    assert forall|j: int| 0 <= j < line.len() implies body[j] != '\n' by {
        assert(body[j] == line[j]);
    }
    assert(body[line.len() as int] == '\n');
    lemma_first_newline_at(body, line.len() as int);
    let rest = body.skip(line.len() as int + 1);
    assert(rest =~= Seq::<char>::empty());
    assert(first_newline(rest) == 0);
    assert(first_sep(rest) == 0);
    assert(scan_value(rest, key) is None);
    assert(body.take(line.len() as int) =~= line);
}

/// A line `key: value` binds `key` to `value`, for a key free of colons.
proof fn lemma_line_value_keyed(key: Seq<char>, value: Seq<char>)
    requires
        forall|j: int| 0 <= j < key.len() ==> key[j] != ':',
    ensures
        line_value(key + ": "@ + value, key) == Some(value),
{
    reveal_strlit(": ");
    let line = key + ": "@ + value;
    let k = key.len() as int;
    assert(line[k] == (key + ": "@)[k]);
    assert(line[k + 1] == (key + ": "@)[k + 1]);
    assert(sep_at(line, k));
    assert forall|j: int| 0 <= j < k implies !sep_at(line, j) by {
        assert(line[j] == (key + ": "@)[j]);
        assert((key + ": "@)[j] == key[j]);
    }
    lemma_first_sep_at(line, k);
    assert(line.take(k) =~= key);
    assert(line.skip(k + 2) =~= value);
}

/// A line `key: value` binds nothing to any other key.
proof fn lemma_line_value_other(key: Seq<char>, value: Seq<char>, other: Seq<char>)
    requires
        key != other,
        forall|j: int| 0 <= j < key.len() ==> key[j] != ':',
    ensures
        line_value(key + ": "@ + value, other) == None::<Seq<char>>,
{
    reveal_strlit(": ");
    let line = key + ": "@ + value;
    let k = key.len() as int;
    assert(line[k] == (key + ": "@)[k]);
    assert(line[k + 1] == (key + ": "@)[k + 1]);
    assert(sep_at(line, k));
    assert forall|j: int| 0 <= j < k implies !sep_at(line, j) by {
        assert(line[j] == (key + ": "@)[j]);
        assert((key + ": "@)[j] == key[j]);
    }
    lemma_first_sep_at(line, k);
    assert(line.take(k) =~= key);
}

/// A single-line body that hands an alpha snapshot a direct launcher URL
/// resolves to exactly that URL: no template is substituted, nothing is
/// rewritten.
pub proof fn lemma_alpha_direct_url(u: Seq<char>)
    requires
        forall|j: int| 0 <= j < u.len() ==> u[j] != '\n',
    ensures
        resolution_of(VersionType::Alpha, "launcherUrl: "@ + u + "\n"@) == Some(
            ResolutionView { url: u, hash: None },
        ),
{
    reveal_strlit("launcherUrl: ");
    reveal_strlit("launcherUrl");
    reveal_strlit("launcherHash");
    reveal_strlit("version");
    reveal_strlit(": ");
    assert("launcherUrl: "@ =~= "launcherUrl"@ + ": "@);
    let line = "launcherUrl"@ + ": "@ + u;
    assert("launcherUrl: "@ + u =~= line);
    let body = "launcherUrl: "@ + u + "\n"@;
    assert(body == line + "\n"@);
    assert forall|j: int| 0 <= j < line.len() implies line[j] != '\n' by {
        if j < 11 {
            assert(line[j] == "launcherUrl"@[j]);
        } else if j < 13 {
            assert(line[j] == ": "@[j - 11]);
        } else {
            assert(line[j] == u[j - 13]);
        }
    }
    lemma_scan_one_line(line, "launcherUrl"@);
    lemma_scan_one_line(line, "launcherHash"@);
    lemma_scan_one_line(line, "version"@);
    lemma_line_value_keyed("launcherUrl"@, u);
    lemma_line_value_other("launcherUrl"@, u, "launcherHash"@);
    lemma_line_value_other("launcherUrl"@, u, "version"@);
    assert(spec_launcher_url(body) == Some(u));
    assert(spec_launcher_hash(body) is None);
}

/// Stable and beta round trip: a single-line body that binds `version` to a
/// token, however the token is padded with blanks, resolves to the canonical
/// download URL with the bare token substituted in both the path and the
/// file name.
pub proof fn lemma_version_round_trip(
    version_type: VersionType,
    pad1: Seq<char>,
    v: Seq<char>,
    pad2: Seq<char>,
)
    requires
        version_type == VersionType::Stable || version_type == VersionType::Beta,
        forall|j: int| 0 <= j < pad1.len() ==> is_blank(pad1[j]),
        forall|j: int| 0 <= j < pad2.len() ==> is_blank(pad2[j]),
        forall|j: int| 0 <= j < v.len() ==> v[j] != '\n',
        v.len() > 0 ==> !is_blank(v[0]) && !is_blank(v[v.len() - 1]),
    ensures
        resolution_of(version_type, "version: "@ + pad1 + v + pad2 + "\n"@) == Some(
            ResolutionView { url: download_url_spec(v), hash: None },
        ),
{
    reveal_strlit("version: ");
    reveal_strlit("launcherUrl");
    reveal_strlit("launcherHash");
    reveal_strlit("version");
    reveal_strlit(": ");
    assert("version: "@ =~= "version"@ + ": "@);
    let value = pad1 + v + pad2;
    let line = "version"@ + ": "@ + value;
    assert("version: "@ + pad1 + v + pad2 =~= line);
    let body = "version: "@ + pad1 + v + pad2 + "\n"@;
    assert(body == line + "\n"@);
    assert forall|j: int| 0 <= j < line.len() implies line[j] != '\n' by {
        if j < 7 {
            assert(line[j] == "version"@[j]);
        } else if j < 9 {
            assert(line[j] == ": "@[j - 7]);
        } else {
            assert(line[j] == value[j - 9]);
            let i = j - 9;
            if i < pad1.len() {
                assert(value[i] == pad1[i]);
            } else if i < pad1.len() + v.len() {
                assert(value[i] == v[i - pad1.len()]);
            } else {
                assert(value[i] == pad2[i - pad1.len() - v.len()]);
            }
        }
    }
    lemma_scan_one_line(line, "launcherUrl"@);
    lemma_scan_one_line(line, "launcherHash"@);
    lemma_scan_one_line(line, "version"@);
    lemma_line_value_keyed("version"@, value);
    lemma_line_value_other("version"@, value, "launcherUrl"@);
    lemma_line_value_other("version"@, value, "launcherHash"@);
    assert(spec_version(body) == Some(value));
    assert(spec_launcher_url(body) is None);
    assert(spec_launcher_hash(body) is None);
    lemma_trim_padded(pad1, v, pad2);
}

/// A body that binds neither a launcher URL nor a version resolves to
/// absence for every channel; absence is an outcome, never an error.
pub proof fn lemma_missing_fields_resolve_to_absence(version_type: VersionType, body: Seq<char>)
    requires
        spec_launcher_url(body) is None,
        spec_version(body) is None,
    ensures
        resolution_of(version_type, body) is None,
{
}

} // verus!
