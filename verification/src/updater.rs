//! Release checks against GitHub: reading the release tag from the
//! `releases/latest` redirect, comparing versions, choosing the download
//! asset and building its URL.

use vstd::prelude::*;
use crate::text::{ascii_lowercase, decimal, ends_with, ends_with_exec, lowercase_chars, push_decimal, same_chars, string_from_chars, chars_vec, char_views, find_from, find_from_exec, lemma_split_char_nonempty, parse_u32_chars, parse_u32_spec, split_char, split_chars, trim_end_char, trim_start_char};

verus! {

/// File name of the Windows executable attached to each release.
pub const RELEASE_ASSET_NAME: &'static str = "codex-usage-taskbar-monitor.exe";

/// A newer release that can be installed.
#[derive(Clone, Debug, PartialEq, Eq)]
pub struct ReleaseDescriptor {
    pub latest_version: String,
    pub asset_url: String,
}

/// One asset listed by the GitHub releases API.
#[derive(Clone, Debug, PartialEq, Eq)]
pub struct ReleaseAsset {
    pub name: String,
    pub browser_download_url: String,
}

/// Index of the first `?` or `#` in `s` at or after `from`, or `s.len()`.
pub open spec fn query_stop(s: Seq<char>, from: int) -> int
    decreases s.len() - from,
{
    if from < 0 || from >= s.len() {
        s.len() as int
    } else if s[from] == '?' || s[from] == '#' {
        from
    } else {
        query_stop(s, from + 1)
    }
}

/// The release tag a `releases/latest` redirect points to: the text after
/// the first `/releases/tag/`, up to any query or fragment, without
/// surrounding `/`; `None` when there is no such text.
pub open spec fn latest_tag_spec(location: Seq<char>) -> Option<Seq<char>> {
    match find_from(location, "/releases/tag/"@, 0) {
        None => None,
        Some(i) => {
            let rest = location.skip(i + "/releases/tag/"@.len());
            let piece = rest.take(query_stop(rest, 0));
            let tag = trim_end_char(trim_start_char(piece, '/'), '/');
            if tag.len() == 0 {
                None
            } else {
                Some(tag)
            }
        },
    }
}

/// The release tag named by the `Location` of a `releases/latest` redirect.
pub fn release_tag_from_latest_location(location: &str) -> (tag: Option<&str>)
    ensures
        match (tag, latest_tag_spec(location@)) {
            (Some(t), Some(u)) => t@ == u,
            (None, None) => true,
            _ => false,
        },
{
    let v = chars_vec(location);
    let pat = chars_vec("/releases/tag/");
    let n = v.len();
    let i = match find_from_exec(&v, &pat, 0) {
        None => return None,
        Some(i) => i,
    };
    let p0 = i + pat.len();
    let ghost rest = v@.skip(p0 as int);
    let mut q = p0;
    assert(query_stop(rest, 0) == query_stop(rest, (q - p0) as int));
    while q < n && v[q] != '?' && v[q] != '#'
        invariant
            n == v.len(),
            p0 <= q <= n,
            rest == v@.skip(p0 as int),
            query_stop(rest, 0) == query_stop(rest, (q - p0) as int),
        decreases n - q,
    {
        assert(rest[(q - p0) as int] == v@[q as int]);
        q += 1;
    }
    if q < n {
        assert(rest[(q - p0) as int] == v@[q as int]);
    }
    let ghost piece = rest.take(query_stop(rest, 0));
    assert(piece =~= v@.subrange(p0 as int, q as int));
    let mut a = p0;
    while a < q && v[a] == '/'
        invariant
            n == v.len(),
            p0 <= a <= q <= n,
            trim_start_char(piece, '/') == trim_start_char(v@.subrange(a as int, q as int), '/'),
        decreases q - a,
    {
        assert(v@.subrange(a as int, q as int).drop_first() =~= v@.subrange(a + 1, q as int));
        a += 1;
    }
    let mut b = q;
    while b > a && v[b - 1] == '/'
        invariant
            n == v.len(),
            p0 <= a <= b <= q <= n,
            trim_end_char(v@.subrange(a as int, q as int), '/') == trim_end_char(v@.subrange(a as int, b as int), '/'),
        decreases b - a,
    {
        assert(v@.subrange(a as int, b as int).drop_last() =~= v@.subrange(a as int, b - 1));
        b -= 1;
    }
    assert(trim_end_char(trim_start_char(piece, '/'), '/') == v@.subrange(a as int, b as int));
    if a == b {
        None
    } else {
        Some(location.substring_char(a, b))
    }
}

/// Download URL of the release asset for `tag`.
pub fn github_release_asset_url(owner: &str, repo: &str, tag: &str) -> (url: String)
    ensures
        url@ == "https://github.com/"@ + owner@ + "/"@ + repo@ + "/releases/download/"@ + tag@ + "/"@
            + RELEASE_ASSET_NAME@,
{
    let mut url = String::from_str("https://github.com/");
    url.append(owner);
    url.append("/");
    url.append(repo);
    url.append("/releases/download/");
    url.append(tag);
    url.append("/");
    url.append(RELEASE_ASSET_NAME);
    url
}

/// The numeric part of field `k` of a version: fields are separated by `.`
/// in the text before any `-`; a missing or non-numeric field reads as 0.
pub open spec fn version_field(version: Seq<char>, k: int) -> u32 {
    let parts = split_char(split_char(version, '-')[0], '.');
    if 0 <= k < parts.len() {
        match parse_u32_spec(parts[k]) {
            Some(n) => n,
            None => 0,
        }
    } else {
        0
    }
}

/// `(major, minor, patch)` of a version string.
pub open spec fn version_spec(version: Seq<char>) -> (u32, u32, u32) {
    (version_field(version, 0), version_field(version, 1), version_field(version, 2))
}

/// Lexicographic order on version triples.
pub open spec fn triple_greater(a: (u32, u32, u32), b: (u32, u32, u32)) -> bool {
    a.0 > b.0 || (a.0 == b.0 && (a.1 > b.1 || (a.1 == b.1 && a.2 > b.2)))
}

fn field_of(parts: &Vec<Vec<char>>, k: usize) -> (n: u32)
    ensures
        n == (if k < parts@.len() {
            match parse_u32_spec(parts@[k as int]@) {
                Some(m) => m,
                None => 0,
            }
        } else {
            0
        }),
{
    if k < parts.len() {
        match parse_u32_chars(&parts[k]) {
            Some(m) => m,
            None => 0,
        }
    } else {
        0
    }
}

/// `(major, minor, patch)` of a version string such as `1.5.2` or `1.6.0-beta`.
pub fn parse_version(version: &str) -> (triple: (u32, u32, u32))
    ensures
        triple == version_spec(version@),
{
    let v = chars_vec(version);
    let core_pieces = split_chars(&v, '-');
    proof {
        lemma_split_char_nonempty(v@, '-');
    }
    let parts = split_chars(&core_pieces[0], '.');
    assert(core_pieces@[0]@ == split_char(version@, '-')[0]);
    let major = field_of(&parts, 0);
    let minor = field_of(&parts, 1);
    let patch = field_of(&parts, 2);
    proof {
        let ps = split_char(split_char(version@, '-')[0], '.');
        assert(char_views(parts@) == ps);
        assert(parts@.len() == ps.len());
        if 0 < parts@.len() { assert(parts@[0]@ == ps[0]); }
        if 1 < parts@.len() { assert(parts@[1]@ == ps[1]); }
        if 2 < parts@.len() { assert(parts@[2]@ == ps[2]); }
    }
    (major, minor, patch)
}

/// Whether `candidate` is a later version than `current`.
pub fn is_version_newer(candidate: &str, current: &str) -> (newer: bool)
    ensures
        newer == triple_greater(version_spec(candidate@), version_spec(current@)),
        newer <==> ({
            let (a, b) = (version_spec(candidate@), version_spec(current@));
            ||| a.0 > b.0
            ||| a.0 == b.0 && a.1 > b.1
            ||| a.0 == b.0 && a.1 == b.1 && a.2 > b.2
        }),
{
    proof { lemma_version_order_is_lexicographic(candidate@, current@); }
    let a = parse_version(candidate);
    let b = parse_version(current);
    a.0 > b.0 || (a.0 == b.0 && (a.1 > b.1 || (a.1 == b.1 && a.2 > b.2)))
}

} // verus!
verus! {

/// The message given when the package repository URL names no owner and repository.
pub open spec fn repo_missing_message() -> Seq<char> {
    "Package repository URL is not configured for GitHub releases."@
}

/// The `/`-separated pieces of a repository URL without its trailing `/`.
pub open spec fn repo_parts(repository: Seq<char>) -> Seq<Seq<char>> {
    split_char(trim_end_char(repository, '/'), '/')
}

/// Owner and repository named by the last two path pieces of a repository
/// URL such as `https://github.com/owner/repo`.
pub fn github_repo(repository: &str) -> (result: Result<(String, String), String>)
    ensures
        ({
            let parts = repo_parts(repository@);
            if parts.len() < 2 || parts[parts.len() - 2].len() == 0 || parts[parts.len() - 1].len() == 0 {
                result is Err && result->Err_0@ == repo_missing_message()
            } else {
                result is Ok && result->Ok_0.0@ == parts[parts.len() - 2] && result->Ok_0.1@ == parts[parts.len() - 1]
            }
        }),
{
    let mut v = chars_vec(repository);
    let n = v.len();
    let mut b = n;
    assert(v@.take(n as int) =~= v@);
    while b > 0 && v[b - 1] == '/'
        invariant
            n == v.len(),
            0 <= b <= n,
            trim_end_char(repository@, '/') == trim_end_char(v@.take(b as int), '/'),
            v@ == repository@,
        decreases b,
    {
        assert(v@.take(b as int).drop_last() =~= v@.take(b - 1));
        b -= 1;
    }
    v.truncate(b);
    let parts = split_chars(&v, '/');
    let count = parts.len();
    if count < 2 {
        return Err(String::from_str("Package repository URL is not configured for GitHub releases."));
    }
    assert(parts@[count - 2]@ == repo_parts(repository@)[count - 2]);
    assert(parts@[count - 1]@ == repo_parts(repository@)[count - 1]);
    if parts[count - 2].len() == 0 || parts[count - 1].len() == 0 {
        return Err(String::from_str("Package repository URL is not configured for GitHub releases."));
    }
    Ok((string_from_chars(&parts[count - 2]), string_from_chars(&parts[count - 1])))
}

/// The `User-Agent` sent with update checks: `name/version`.
pub fn user_agent(package_name: &str, package_version: &str) -> (agent: String)
    ensures
        agent@ == package_name@ + "/"@ + package_version@,
{
    let mut agent = String::from_str(package_name);
    agent.append("/");
    agent.append(package_version);
    agent
}

/// `Accept` header of release API requests.
pub const GITHUB_API_ACCEPT: &'static str = "application/vnd.github+json";
/// `X-GitHub-Api-Version` header of release API requests.
pub const GITHUB_API_VERSION: &'static str = "2022-11-28";

/// The releases API address of a repository's latest release.
pub fn latest_release_api_url(owner: &str, repo: &str) -> (url: String)
    ensures
        url@ == "https://api.github.com/repos/"@ + owner@ + "/"@ + repo@ + "/releases/latest"@,
{
    let mut url = String::from_str("https://api.github.com/repos/");
    url.append(owner);
    url.append("/");
    url.append(repo);
    url.append("/releases/latest");
    url
}

/// The web address that redirects to a repository's latest release tag.
pub fn latest_release_page_url(owner: &str, repo: &str) -> (url: String)
    ensures
        url@ == "https://github.com/"@ + owner@ + "/"@ + repo@ + "/releases/latest"@,
{
    let mut url = String::from_str("https://github.com/");
    url.append(owner);
    url.append("/");
    url.append(repo);
    url.append("/releases/latest");
    url
}

/// Whether a refused API request is retried through the release redirect:
/// it is when GitHub rate-limits the API (403 or 429).
pub fn falls_back_to_redirect(status: u16) -> (fallback: bool)
    ensures
        fallback == (status == 403 || status == 429),
{
    status == 403 || status == 429
}

/// The error reported when the API refused with `status` and the redirect
/// check failed with `fallback_error`.
pub fn fallback_failure_message(status: u16, fallback_error: &str) -> (message: String)
    ensures
        message@ == "Unable to check GitHub releases via API: status code "@ + decimal(status as nat)
            + ". Fallback check failed: "@ + fallback_error@,
{
    let mut message = String::from_str("Unable to check GitHub releases via API: status code ");
    push_decimal(&mut message, status as u64);
    message.append(". Fallback check failed: ");
    message.append(fallback_error);
    message
}

/// The release named by a tag: the version without leading `v`s, and the
/// standard asset URL, when it is newer than `current_version`.
pub open spec fn release_for_tag(owner: Seq<char>, repo: Seq<char>, tag: Seq<char>, current_version: Seq<char>) -> Option<(Seq<char>, Seq<char>)> {
    let latest = trim_start_char(tag, 'v');
    if triple_greater(version_spec(latest), version_spec(current_version)) {
        Some((latest, "https://github.com/"@ + owner + "/"@ + repo + "/releases/download/"@ + tag + "/"@ + RELEASE_ASSET_NAME@))
    } else {
        None
    }
}

fn trim_leading_v(tag: &str) -> (version: String)
    ensures
        version@ == trim_start_char(tag@, 'v'),
{
    let v = chars_vec(tag);
    let mut a: usize = 0;
    assert(v@.subrange(0, v.len() as int) =~= v@);
    while a < v.len() && v[a] == 'v'
        invariant
            0 <= a <= v.len(),
            v@ == tag@,
            trim_start_char(tag@, 'v') == trim_start_char(v@.subrange(a as int, v.len() as int), 'v'),
        decreases v.len() - a,
    {
        assert(v@.subrange(a as int, v.len() as int).drop_first() =~= v@.subrange(a + 1, v.len() as int));
        a += 1;
    }
    String::from_str(tag.substring_char(a, v.len()))
}

/// Outcome of following the `releases/latest` redirect that answered with
/// `status` and the `Location` header `location`: an error message when the
/// answer is not a redirect to a release tag, no release when the tagged
/// version is not newer than `current_version`, the release otherwise.
pub fn release_from_redirect(owner: &str, repo: &str, status: u16, location: Option<&str>, current_version: &str) -> (result: Result<Option<ReleaseDescriptor>, String>)
    ensures
        !(300 <= status < 400) ==> result is Err && result->Err_0@
            == "GitHub latest release redirect returned unexpected status code "@ + decimal(status as nat),
        300 <= status < 400 && location is None ==> result is Err && result->Err_0@
            == "GitHub latest release redirect did not include a Location header"@,
        300 <= status < 400 && location is Some && latest_tag_spec(location->0@) is None ==> result is Err
            && result->Err_0@ == "GitHub latest release redirect did not point to a release tag: "@ + location->0@,
        300 <= status < 400 && location is Some && latest_tag_spec(location->0@) is Some ==> result is Ok
            && match (result->Ok_0, release_for_tag(owner@, repo@, latest_tag_spec(location->0@)->0, current_version@)) {
                (None, None) => true,
                (Some(r), Some((version, url))) => r.latest_version@ == version && r.asset_url@ == url,
                _ => false,
            },
{
    if !(300 <= status && status < 400) {
        let mut message = String::from_str("GitHub latest release redirect returned unexpected status code ");
        push_decimal(&mut message, status as u64);
        return Err(message);
    }
    let location = match location {
        None => return Err(String::from_str("GitHub latest release redirect did not include a Location header")),
        Some(location) => location,
    };
    let tag = match release_tag_from_latest_location(location) {
        None => {
            let mut message = String::from_str("GitHub latest release redirect did not point to a release tag: ");
            message.append(location);
            return Err(message);
        },
        Some(tag) => tag,
    };
    let latest_version = trim_leading_v(tag);
    if !is_version_newer(latest_version.as_str(), current_version) {
        return Ok(None);
    }
    Ok(Some(ReleaseDescriptor { latest_version, asset_url: github_release_asset_url(owner, repo, tag) }))
}

/// Whether an asset is the named Windows executable, ignoring ASCII case.
pub open spec fn is_named_asset(asset: ReleaseAsset) -> bool {
    ascii_lowercase(asset.name@) == ascii_lowercase(RELEASE_ASSET_NAME@)
}

/// Whether an asset is some `.exe` file, ignoring ASCII case.
pub open spec fn is_exe_asset(asset: ReleaseAsset) -> bool {
    ends_with(ascii_lowercase(asset.name@), ".exe"@)
}

/// Index of the first asset at or after `from` accepted by `pred`.
pub open spec fn first_asset(assets: Seq<ReleaseAsset>, pred: spec_fn(ReleaseAsset) -> bool, from: int) -> Option<int>
    decreases assets.len() - from,
{
    if from < 0 || from >= assets.len() {
        None
    } else if pred(assets[from]) {
        Some(from)
    } else {
        first_asset(assets, pred, from + 1)
    }
}

/// The asset to download: the named executable if listed, else the first `.exe`.
pub open spec fn chosen_asset(assets: Seq<ReleaseAsset>) -> Option<int> {
    match first_asset(assets, |a: ReleaseAsset| is_named_asset(a), 0) {
        Some(i) => Some(i),
        None => first_asset(assets, |a: ReleaseAsset| is_exe_asset(a), 0),
    }
}

fn find_asset(assets: &Vec<ReleaseAsset>, exact: bool) -> (found: Option<usize>)
    ensures
        exact ==> match found {
            Some(i) => first_asset(assets@, |a: ReleaseAsset| is_named_asset(a), 0) == Some(i as int),
            None => first_asset(assets@, |a: ReleaseAsset| is_named_asset(a), 0) is None,
        },
        !exact ==> match found {
            Some(i) => first_asset(assets@, |a: ReleaseAsset| is_exe_asset(a), 0) == Some(i as int),
            None => first_asset(assets@, |a: ReleaseAsset| is_exe_asset(a), 0) is None,
        },
        found is Some ==> found->0 < assets.len(),
{
    let target = lowercase_chars(RELEASE_ASSET_NAME);
    let suffix = chars_vec(".exe");
    let ghost pred = if exact {
        |a: ReleaseAsset| is_named_asset(a)
    } else {
        |a: ReleaseAsset| is_exe_asset(a)
    };
    let mut i: usize = 0;
    while i < assets.len()
        invariant
            0 <= i <= assets.len(),
            target@ == ascii_lowercase(RELEASE_ASSET_NAME@),
            suffix@ == ".exe"@,
            pred == (if exact { |a: ReleaseAsset| is_named_asset(a) } else { |a: ReleaseAsset| is_exe_asset(a) }),
            first_asset(assets@, pred, 0) == first_asset(assets@, pred, i as int),
        decreases assets.len() - i,
    {
        let name = lowercase_chars(assets[i].name.as_str());
        let hit = if exact {
            same_chars(&name, &target)
        } else {
            ends_with_exec(&name, &suffix)
        };
        assert(hit == pred(assets@[i as int]));
        if hit {
            return Some(i);
        }
        i += 1;
    }
    None
}

/// Outcome of the releases API naming `tag_name` with `assets`: no release
/// when the tagged version is not newer than `current_version`, an error
/// when no executable is attached, the release with the chosen asset's
/// download URL otherwise.
pub fn release_from_api(tag_name: &str, assets: &Vec<ReleaseAsset>, current_version: &str) -> (result: Result<Option<ReleaseDescriptor>, String>)
    ensures
        !triple_greater(version_spec(trim_start_char(tag_name@, 'v')), version_spec(current_version@)) ==> result
            == Ok::<Option<ReleaseDescriptor>, String>(None),
        triple_greater(version_spec(trim_start_char(tag_name@, 'v')), version_spec(current_version@))
            && chosen_asset(assets@) is None ==> result is Err && result->Err_0@
            == "No Windows executable asset was found in the latest release."@,
        triple_greater(version_spec(trim_start_char(tag_name@, 'v')), version_spec(current_version@))
            && chosen_asset(assets@) is Some ==> result is Ok && result->Ok_0 is Some
            && result->Ok_0->0.latest_version@ == trim_start_char(tag_name@, 'v')
            && result->Ok_0->0.asset_url@ == assets@[chosen_asset(assets@)->0].browser_download_url@,
{
    let latest_version = trim_leading_v(tag_name);
    if !is_version_newer(latest_version.as_str(), current_version) {
        return Ok(None);
    }
    let index = match find_asset(assets, true) {
        Some(i) => i,
        None => match find_asset(assets, false) {
            Some(i) => i,
            None => return Err(String::from_str("No Windows executable asset was found in the latest release.")),
        },
    };
    let asset_url = assets[index].browser_download_url.clone();
    Ok(Some(ReleaseDescriptor { latest_version, asset_url }))
}

} // verus!
verus! {

/// Versions are ordered lexicographically on (major, minor, patch): a later
/// major wins; with equal majors a later minor wins whatever the patch
/// numbers; with equal majors and minors a later patch wins.
pub proof fn lemma_version_order_is_lexicographic(candidate: Seq<char>, current: Seq<char>)
    ensures
        ({
            let (a, b) = (version_spec(candidate), version_spec(current));
            &&& a.0 > b.0 ==> triple_greater(a, b)
            &&& a.0 < b.0 ==> !triple_greater(a, b)
            &&& a.0 == b.0 && a.1 > b.1 ==> triple_greater(a, b)
            &&& a.0 == b.0 && a.1 < b.1 ==> !triple_greater(a, b)
            &&& a.0 == b.0 && a.1 == b.1 ==> (triple_greater(a, b) <==> a.2 > b.2)
        }),
{
}

/// "Newer than" is a strict order on versions: no version is newer than
/// itself, and it is transitive, so of two versions at most one is newer.
pub proof fn lemma_version_order_is_strict(a: Seq<char>, b: Seq<char>, c: Seq<char>)
    ensures
        !triple_greater(version_spec(a), version_spec(a)),
        triple_greater(version_spec(a), version_spec(b)) ==> !triple_greater(version_spec(b), version_spec(a)),
        triple_greater(version_spec(a), version_spec(b)) && triple_greater(version_spec(b), version_spec(c))
            ==> triple_greater(version_spec(a), version_spec(c)),
{
}

} // verus!
