//! The decisions of `bettr self update` and `self uninstall`: which release
//! asset to take, whether a download is what the release says, and how the
//! outcome is reported. The program downloads, unpacks and copies.
use crate::app::UpdateSource;
use crate::error::{fails_with_input, fails_with_internal, internal, invalid_input, AppError};
use crate::json::{
    first_member, find_member, json_document, member_of, object_members, opt_int, parse_json, read_int, Json,
};
use crate::store::jsonl::{hex_spec, opt_text, sha256, sha256_hex, text_of};
use crate::text::{chars_of, concat, concat3, push_str, str_equals, string_from_chars, trim};
use crate::web::{split_on, words};
use vstd::prelude::*;

verus! {

/// The repository that releases are taken from.
pub const REPOSITORY: &'static str = "asonas/bettr";

/// The API address of the latest release.
pub const RELEASE_API_URL: &'static str = "https://api.github.com/repos/asonas/bettr/releases/latest";

/// The API address of the newest commit on `main`.
pub const MAIN_API_URL: &'static str = "https://api.github.com/repos/asonas/bettr/commits/main";

/// The outcome for one installed component.
#[derive(Clone, Copy, Debug, PartialEq, Eq, Structural)]
pub enum UpdateResult {
    Updated,
    Installed,
    Failed,
}

pub open spec fn update_result_name(r: UpdateResult) -> Seq<char> {
    match r {
        UpdateResult::Updated => "updated"@,
        UpdateResult::Installed => "installed"@,
        UpdateResult::Failed => "failed"@,
    }
}

impl UpdateResult {
    pub fn as_str(self) -> (s: &'static str)
        ensures
            s@ == update_result_name(self),
    {
        match self {
            UpdateResult::Updated => "updated",
            UpdateResult::Installed => "installed",
            UpdateResult::Failed => "failed",
        }
    }
}

/// The outcome of removing one skill.
#[derive(Clone, Copy, Debug, PartialEq, Eq, Structural)]
pub enum UninstallResult {
    Removed,
    NotInstalled,
    Failed,
}

pub open spec fn uninstall_result_name(r: UninstallResult) -> Seq<char> {
    match r {
        UninstallResult::Removed => "removed"@,
        UninstallResult::NotInstalled => "not_installed"@,
        UninstallResult::Failed => "failed"@,
    }
}

impl UninstallResult {
    pub fn as_str(self) -> (s: &'static str)
        ensures
            s@ == uninstall_result_name(self),
    {
        match self {
            UninstallResult::Removed => "removed",
            UninstallResult::NotInstalled => "not_installed",
            UninstallResult::Failed => "failed",
        }
    }
}

/// How one component was updated.
#[derive(Clone, Debug)]
pub struct ComponentUpdate {
    pub source: UpdateSource,
    pub version: Option<String>,
    pub revision: String,
    pub result: UpdateResult,
    pub path: String,
    pub backup: Option<String>,
    pub error: Option<String>,
}

/// The report of a self-update: the CLI and both agent skills.
#[derive(Clone, Debug)]
pub struct SelfUpdateReport {
    pub source: UpdateSource,
    pub revision: String,
    pub cli: ComponentUpdate,
    pub codex: ComponentUpdate,
    pub claude: ComponentUpdate,
}

/// How one skill was removed.
#[derive(Clone, Debug)]
pub struct ComponentUninstall {
    pub result: UninstallResult,
    pub path: String,
    pub error: Option<String>,
}

/// The report of a self-uninstall: both agent skills.
#[derive(Clone, Debug)]
pub struct SelfUninstallReport {
    pub codex: ComponentUninstall,
    pub claude: ComponentUninstall,
}

impl SelfUninstallReport {
    /// The uninstall succeeded when no skill failed.
    pub fn succeeded(&self) -> (b: bool)
        ensures
            b == (self.codex.result != UninstallResult::Failed && self.claude.result
                != UninstallResult::Failed),
    {
        self.codex.result != UninstallResult::Failed && self.claude.result != UninstallResult::Failed
    }
}

impl SelfUpdateReport {
    /// The update succeeded when no component failed.
    pub fn succeeded(&self) -> (b: bool)
        ensures
            b == (self.cli.result != UpdateResult::Failed && self.codex.result
                != UpdateResult::Failed && self.claude.result != UpdateResult::Failed),
    {
        self.cli.result != UpdateResult::Failed && self.codex.result != UpdateResult::Failed
            && self.claude.result != UpdateResult::Failed
    }
}

/// The release target of a machine, from its architecture and system.
pub open spec fn target_triple_spec(arch: Seq<char>, os: Seq<char>) -> Option<Seq<char>> {
    if arch == "x86_64"@ && os == "linux"@ {
        Some("x86_64-unknown-linux-gnu"@)
    } else if arch == "aarch64"@ && os == "linux"@ {
        Some("aarch64-unknown-linux-gnu"@)
    } else if arch == "x86_64"@ && os == "macos"@ {
        Some("x86_64-apple-darwin"@)
    } else if arch == "aarch64"@ && os == "macos"@ {
        Some("aarch64-apple-darwin"@)
    } else {
        None
    }
}

/// A release target names the machine's own architecture and system:
/// Linux on x86_64 and aarch64 is `<arch>-unknown-linux-gnu`, macOS on
/// them is `<arch>-apple-darwin`, and there is no other target.
pub proof fn law_target_names_machine(arch: Seq<char>, os: Seq<char>)
    ensures
        target_triple_spec(arch, os) is Some <==> ((arch == "x86_64"@ || arch == "aarch64"@) && (os
            == "linux"@ || os == "macos"@)),
        os == "linux"@ && target_triple_spec(arch, os) is Some ==> target_triple_spec(arch, os)
            == Some(arch + "-unknown-linux-gnu"@),
        os == "macos"@ && target_triple_spec(arch, os) is Some ==> target_triple_spec(arch, os)
            == Some(arch + "-apple-darwin"@),
{
    reveal_strlit("x86_64");
    reveal_strlit("aarch64");
    reveal_strlit("linux");
    reveal_strlit("macos");
    reveal_strlit("-unknown-linux-gnu");
    reveal_strlit("-apple-darwin");
    reveal_strlit("x86_64-unknown-linux-gnu");
    reveal_strlit("aarch64-unknown-linux-gnu");
    reveal_strlit("x86_64-apple-darwin");
    reveal_strlit("aarch64-apple-darwin");
    assert("linux"@[0] != "macos"@[0]);
    assert("x86_64"@ + "-unknown-linux-gnu"@ =~= "x86_64-unknown-linux-gnu"@);
    assert("aarch64"@ + "-unknown-linux-gnu"@ =~= "aarch64-unknown-linux-gnu"@);
    assert("x86_64"@ + "-apple-darwin"@ =~= "x86_64-apple-darwin"@);
    assert("aarch64"@ + "-apple-darwin"@ =~= "aarch64-apple-darwin"@);
}

/// The release target of the machine; other machines are not supported.
pub fn target_triple(arch: &str, os: &str) -> (r: Result<String, AppError>)
    ensures
        match target_triple_spec(arch@, os@) {
            Some(t) => r matches Ok(s) && s@ == t,
            None => fails_with_input(r, "self-update does not support "@ + arch@ + "-"@ + os@),
        },
{
    if str_equals(arch, "x86_64") && str_equals(os, "linux") {
        Ok("x86_64-unknown-linux-gnu".to_owned())
    } else if str_equals(arch, "aarch64") && str_equals(os, "linux") {
        Ok("aarch64-unknown-linux-gnu".to_owned())
    } else if str_equals(arch, "x86_64") && str_equals(os, "macos") {
        Ok("x86_64-apple-darwin".to_owned())
    } else if str_equals(arch, "aarch64") && str_equals(os, "macos") {
        Ok("aarch64-apple-darwin".to_owned())
    } else {
        let mut m = concat3("self-update does not support ", arch, "-");
        push_str(&mut m, os);
        Err(AppError::InvalidInput(m))
    }
}

/// A text field of an API response must be a non-empty text.
pub fn required_text(value: Option<String>, key: &str, description: &str) -> (r: Result<String, AppError>)
    ensures
        match value {
            Some(v) => if v@.len() > 0 {
                r == Ok::<String, AppError>(v)
            } else {
                fails_with_internal(r, description@ + " response is missing "@ + key@)
            },
            None => fails_with_internal(r, description@ + " response is missing "@ + key@),
        },
{
    match value {
        Some(v) => {
            if v.as_str().unicode_len() > 0 {
                return Ok(v);
            }
            Err(AppError::Internal(concat3(description, " response is missing ", key)))
        },
        None => Err(AppError::Internal(concat3(description, " response is missing ", key))),
    }
}

/// The version of a release tag: the tag without a leading `v`.
pub fn release_version(tag: &str) -> (r: Result<String, AppError>)
    ensures
        ({
            let v = if tag@.len() > 0 && tag@[0] == 'v' {
                tag@.skip(1)
            } else {
                tag@
            };
            if v.len() == 0 {
                fails_with_internal(r, "latest release has an empty version"@)
            } else {
                r matches Ok(s) && s@ == v
            }
        }),
{
    let chars = chars_of(tag);
    let mut rest: Vec<char> = Vec::new();
    let start: usize = if chars.len() > 0 && chars[0] == 'v' {
        1
    } else {
        0
    };
    let mut i = start;
    while i < chars.len()
        invariant
            start <= i <= chars.len(),
            rest@ == chars@.subrange(start as int, i as int),
        decreases chars.len() - i,
    {
        rest.push(chars[i]);
        i = i + 1;
        assert(rest@ =~= chars@.subrange(start as int, i as int));
    }
    assert(chars@.subrange(start as int, chars@.len() as int) =~= chars@.skip(start as int));
    if rest.len() == 0 {
        return Err(internal("latest release has an empty version"));
    }
    Ok(string_from_chars(&rest))
}

/// The archive of a release for a target.
pub fn archive_name(version: &str, target: &str) -> (s: String)
    ensures
        s@ == "bettr-"@ + version@ + "-"@ + target@ + ".tar.gz"@,
{
    let mut s = concat3("bettr-", version, "-");
    push_str(&mut s, target);
    push_str(&mut s, ".tar.gz");
    s
}

/// The checksum file of a release archive.
pub fn checksum_name(archive: &str) -> (s: String)
    ensures
        s@ == archive@ + ".sha256"@,
{
    concat(archive, ".sha256")
}

/// The source archive of a commit on the repository.
pub fn main_archive_url(revision: &str) -> (s: String)
    ensures
        s@ == "https://github.com/"@ + REPOSITORY@ + "/archive/"@ + revision@ + ".tar.gz"@,
{
    let mut s = concat3("https://github.com/", REPOSITORY, "/archive/");
    push_str(&mut s, revision);
    push_str(&mut s, ".tar.gz");
    s
}

/// The download address of the first asset named `name` that has one.
pub open spec fn asset_url_spec(assets: Seq<(Option<String>, Option<String>)>, name: Seq<char>) -> Option<
    Seq<char>,
>
    decreases assets.len(),
{
    if assets.len() == 0 {
        None
    } else if (assets[0].0 matches Some(n) && n@ == name) && assets[0].1 is Some {
        Some(assets[0].1->0@)
    } else {
        asset_url_spec(assets.drop_first(), name)
    }
}

/// The download address of a release asset; each asset is its name and
/// its address, where the release gives them as texts.
pub fn release_asset_url(assets: &Vec<(Option<String>, Option<String>)>, name: &str) -> (r: Result<
    String,
    AppError,
>)
    ensures
        match asset_url_spec(assets@, name@) {
            Some(u) => r matches Ok(s) && s@ == u,
            None => r matches Err(AppError::NotFound(m)) && m@ == "release asset "@ + name@
                + " is not available for this platform"@,
        },
{
    let mut i: usize = 0;
    assert(assets@.skip(0) =~= assets@);
    while i < assets.len()
        invariant
            i <= assets.len(),
            asset_url_spec(assets@, name@) == asset_url_spec(assets@.skip(i as int), name@),
        decreases assets.len() - i,
    {
        let ghost rest = assets@.skip(i as int);
        assert(rest[0] == assets@[i as int]);
        assert(rest.drop_first() =~= assets@.skip(i + 1));
        let matches_name = match &assets[i].0 {
            Some(n) => str_equals(n.as_str(), name),
            None => false,
        };
        if matches_name {
            if let Some(url) = &assets[i].1 {
                return Ok(url.clone());
            }
        }
        i = i + 1;
    }
    Err(AppError::NotFound(concat3("release asset ", name, " is not available for this platform")))
}

/// What an API response holds: the document, where it is a JSON object, or
/// the message of the error that refuses it.
pub open spec fn response_object(response: Seq<u8>, description: Seq<char>) -> Result<Json, Seq<char>> {
    match json_document(response) {
        None => Err("could not parse "@ + description + " response"@),
        Some(doc) => if doc is Object {
            Ok(doc)
        } else {
            Err(description + " response is not a JSON object"@)
        },
    }
}

/// The member `key` of a response, where it is a non-empty text.
pub open spec fn response_text(doc: Json, key: Seq<char>) -> Option<Seq<char>> {
    match text_of(member_of(doc, key)) {
        Some(t) => if t.len() > 0 {
            Some(t)
        } else {
            None
        },
        None => None,
    }
}

/// The name and download address of each asset that a release lists, in
/// its order; a release without an `assets` array lists none.
pub open spec fn release_assets(release: Json) -> Seq<(Option<Seq<char>>, Option<Seq<char>>)> {
    match member_of(release, "assets"@) {
        Some(Json::Array(items)) => items@.map_values(
            |a: Json| (text_of(member_of(a, "name"@)), text_of(member_of(a, "browser_download_url"@))),
        ),
        _ => Seq::empty(),
    }
}

/// Asset pairs as texts.
pub open spec fn asset_texts(assets: Seq<(Option<String>, Option<String>)>) -> Seq<
    (Option<Seq<char>>, Option<Seq<char>>),
> {
    assets.map_values(|p: (Option<String>, Option<String>)| (opt_text(p.0), opt_text(p.1)))
}

/// The members of an API response, which must be a JSON object.
fn response_members(response: &[u8], description: &str) -> (r: Result<Vec<(String, Json)>, AppError>)
    ensures
        match response_object(response@, description@) {
            Err(m) => fails_with_internal(r, m),
            Ok(doc) => r matches Ok(members) && members@ == object_members(doc),
        },
{
    match parse_json(response) {
        None => Err(AppError::Internal(concat3("could not parse ", description, " response"))),
        Some(Json::Object(members)) => Ok(members),
        Some(_) => Err(AppError::Internal(concat(description, " response is not a JSON object"))),
    }
}

/// The text held by the member `name`, if it holds one.
fn member_text(members: &Vec<(String, Json)>, name: &str) -> (r: Option<String>)
    ensures
        opt_text(r) == text_of(first_member(members@, name@)),
{
    match find_member(members, name) {
        Some(Json::Str(t)) => Some(t.clone()),
        _ => None,
    }
}

/// The name and download address of one listed asset.
fn asset_of(asset: &Json) -> (p: (Option<String>, Option<String>))
    ensures
        opt_text(p.0) == text_of(member_of(*asset, "name"@)),
        opt_text(p.1) == text_of(member_of(*asset, "browser_download_url"@)),
{
    match asset {
        Json::Object(members) => (member_text(members, "name"), member_text(members, "browser_download_url")),
        _ => (None, None),
    }
}

/// Reads the latest release from the API's response: its tag and its
/// assets, each a name and a download address where the release gives them
/// as texts.
pub fn release_response(response: &[u8]) -> (r: Result<(String, Vec<(Option<String>, Option<String>)>), AppError>)
    ensures
        match response_object(response@, "latest release"@) {
            Err(m) => fails_with_internal(r, m),
            Ok(doc) => match response_text(doc, "tag_name"@) {
                None => fails_with_internal(r, "latest release response is missing tag_name"@),
                Some(t) => r matches Ok((tag, assets)) && tag@ == t && asset_texts(assets@)
                    == release_assets(doc),
            },
        },
{
    let members = match response_members(response, "latest release") {
        Ok(m) => m,
        Err(e) => {
            return Err(e);
        },
    };
    proof {
        reveal_strlit("latest release");
        reveal_strlit(" response is missing ");
        reveal_strlit("tag_name");
        reveal_strlit("latest release response is missing tag_name");
        assert("latest release"@ + " response is missing "@ + "tag_name"@
            =~= "latest release response is missing tag_name"@);
    }
    let tag = match required_text(member_text(&members, "tag_name"), "tag_name", "latest release") {
        Ok(t) => t,
        Err(e) => {
            return Err(e);
        },
    };
    let mut assets: Vec<(Option<String>, Option<String>)> = Vec::new();
    let listed = find_member(&members, "assets");
    if let Some(Json::Array(items)) = listed {
        let mut i: usize = 0;
        while i < items.len()
            invariant
                i <= items.len(),
                assets@.len() == i,
                forall|q: int|
                    0 <= q < i ==> opt_text((#[trigger] assets@[q]).0) == text_of(
                        member_of(items@[q], "name"@),
                    ) && opt_text(assets@[q].1) == text_of(member_of(items@[q], "browser_download_url"@)),
            decreases items.len() - i,
        {
            let pair = asset_of(&items[i]);
            assets.push(pair);
            i = i + 1;
        }
        assert(asset_texts(assets@) =~= release_assets(Json::Object(members)));
    } else {
        assert(asset_texts(assets@) =~= release_assets(Json::Object(members)));
    }
    Ok((tag, assets))
}

/// Reads the revision of the newest commit on `main` from the API's
/// response.
pub fn main_commit_revision(response: &[u8]) -> (r: Result<String, AppError>)
    ensures
        match response_object(response@, "main commit"@) {
            Err(m) => fails_with_internal(r, m),
            Ok(doc) => match response_text(doc, "sha"@) {
                None => fails_with_internal(r, "main commit response is missing sha"@),
                Some(t) => r matches Ok(s) && s@ == t,
            },
        },
{
    let members = match response_members(response, "main commit") {
        Ok(m) => m,
        Err(e) => {
            return Err(e);
        },
    };
    proof {
        reveal_strlit("main commit");
        reveal_strlit(" response is missing ");
        reveal_strlit("sha");
        reveal_strlit("main commit response is missing sha");
        assert("main commit"@ + " response is missing "@ + "sha"@ =~= "main commit response is missing sha"@);
    }
    required_text(member_text(&members, "sha"), "sha", "main commit")
}

/// The four fields of a release manifest, as a manifest of format version,
/// version, target and revision is read: an object with those members
/// (others are ignored), or an array of exactly those four values in that
/// order; the format version an integer that fits 32 unsigned bits, the
/// others texts.
pub open spec fn manifest_fields(doc: Json) -> Option<(u64, Seq<char>, Seq<char>, Seq<char>)> {
    let (f, v, t, r) = match doc {
        Json::Object(m) => (
            first_member(m@, "format_version"@),
            first_member(m@, "version"@),
            first_member(m@, "target"@),
            first_member(m@, "revision"@),
        ),
        Json::Array(items) => if items@.len() == 4 {
            (Some(items@[0]), Some(items@[1]), Some(items@[2]), Some(items@[3]))
        } else {
            (None, None, None, None)
        },
        _ => (None, None, None, None),
    };
    match (opt_int(f), text_of(v), text_of(t), text_of(r)) {
        (Some(n), Some(a), Some(b), Some(c)) => if 0 <= n <= u32::MAX {
            Some((n as u64, a, b, c))
        } else {
            None
        },
        _ => None,
    }
}

/// Reads a release manifest: its format version, version, target and
/// revision.
pub fn release_manifest_fields(contents: &[u8]) -> (r: Result<(u64, String, String, String), AppError>)
    ensures
        match json_document(contents@) {
            Some(doc) => match manifest_fields(doc) {
                Some((n, a, b, c)) => r matches Ok((f, v, t, rev)) && f == n && v@ == a && t@ == b
                    && rev@ == c,
                None => fails_with_input(r, "release manifest is invalid"@),
            },
            None => fails_with_input(r, "release manifest is invalid"@),
        },
{
    let doc = match parse_json(contents) {
        Some(d) => d,
        None => {
            return Err(invalid_input("release manifest is invalid"));
        },
    };
    let (f, v, t, rev): (Option<&Json>, Option<&Json>, Option<&Json>, Option<&Json>) = match &doc {
        Json::Object(m) => (
            find_member(m, "format_version"),
            find_member(m, "version"),
            find_member(m, "target"),
            find_member(m, "revision"),
        ),
        Json::Array(items) => if items.len() == 4 {
            (Some(&items[0]), Some(&items[1]), Some(&items[2]), Some(&items[3]))
        } else {
            (None, None, None, None)
        },
        _ => (None, None, None, None),
    };
    let number = match f {
        Some(j) => read_int(j),
        None => None,
    };
    match (number, v, t, rev) {
        (Some(n), Some(Json::Str(a)), Some(Json::Str(b)), Some(Json::Str(c))) => {
            if 0 <= n && n <= 4294967295i64 {
                Ok((n as u64, a.clone(), b.clone(), c.clone()))
            } else {
                Err(invalid_input("release manifest is invalid"))
            }
        },
        _ => Err(invalid_input("release manifest is invalid")),
    }
}

/// A checksum line names the archive that it is for, possibly after `*`.
pub open spec fn strip_stars(s: Seq<char>) -> Seq<char>
    decreases s.len(),
{
    if s.len() > 0 && s[0] == '*' {
        strip_stars(s.drop_first())
    } else {
        s
    }
}

/// The problem, if any, of a release archive against its checksum file.
pub open spec fn checksum_error(contents: Seq<char>, archive_name: Seq<char>, archive: Seq<u8>) -> Option<
    Seq<char>,
> {
    let w = words(contents);
    if w.len() == 0 {
        Some("checksum file is empty"@)
    } else if w.len() < 2 || strip_stars(w[1]) != archive_name {
        Some("checksum file names a different archive"@)
    } else if hex_spec(sha256(archive)) != w[0] {
        Some("release archive checksum does not match"@)
    } else {
        None
    }
}

fn strip_stars_text(s: &str) -> (r: String)
    ensures
        r@ == strip_stars(s@),
{
    let chars = chars_of(s);
    let mut i: usize = 0;
    assert(chars@.skip(0) =~= chars@);
    while i < chars.len() && chars[i] == '*'
        invariant
            i <= chars.len(),
            chars@ == s@,
            strip_stars(s@) == strip_stars(chars@.skip(i as int)),
        decreases chars.len() - i,
    {
        assert(chars@.skip(i as int).drop_first() =~= chars@.skip(i + 1));
        i = i + 1;
    }
    let mut rest: Vec<char> = Vec::new();
    let start = i;
    while i < chars.len()
        invariant
            start <= i <= chars.len(),
            rest@ == chars@.subrange(start as int, i as int),
        decreases chars.len() - i,
    {
        rest.push(chars[i]);
        i = i + 1;
        assert(rest@ =~= chars@.subrange(start as int, i as int));
    }
    assert(chars@.subrange(start as int, chars@.len() as int) =~= chars@.skip(start as int));
    string_from_chars(&rest)
}

/// Checks a downloaded release archive against its checksum file: the file
/// names the archive and its SHA-256.
pub fn verify_checksum(contents: &str, archive_name: &str, archive: &[u8]) -> (r: Result<(), AppError>)
    ensures
        match checksum_error(contents@, archive_name@, archive@) {
            Some(m) => fails_with_input(r, m),
            None => r is Ok,
        },
{
    let w = crate::web::split_words(contents);
    proof {
        assert(w@.map_values(|x: String| x@).len() == w@.len());
        if w@.len() > 0 {
            assert(w@.map_values(|x: String| x@)[0] == w@[0]@);
        }
        if w@.len() > 1 {
            assert(w@.map_values(|x: String| x@)[1] == w@[1]@);
        }
    }
    if w.len() == 0 {
        return Err(invalid_input("checksum file is empty"));
    }
    if w.len() < 2 {
        return Err(invalid_input("checksum file names a different archive"));
    }
    let listed = strip_stars_text(w[1].as_str());
    if !str_equals(listed.as_str(), archive_name) {
        return Err(invalid_input("checksum file names a different archive"));
    }
    let actual = sha256_hex(archive);
    if !str_equals(actual.as_str(), w[0].as_str()) {
        return Err(invalid_input("release archive checksum does not match"));
    }
    Ok(())
}

/// The version that `bettr --version` prints: its second word.
pub fn version_from_output(output: &str) -> (r: Result<String, AppError>)
    ensures
        words(output@).len() >= 2 ==> (r matches Ok(v) && v@ == words(output@)[1]),
        words(output@).len() < 2 ==> fails_with_input(
            r,
            "updated bettr binary returned an invalid version"@,
        ),
{
    let w = crate::web::split_words(output);
    proof {
        if w@.len() > 1 {
            assert(w@.map_values(|x: String| x@)[1] == w@[1]@);
        }
    }
    if w.len() < 2 {
        return Err(invalid_input("updated bettr binary returned an invalid version"));
    }
    Ok(w[1].clone())
}

/// Checks a release's manifest against the release that was downloaded.
pub fn check_release_manifest(
    format_version: u64,
    manifest_version: &str,
    manifest_target: &str,
    manifest_revision: &str,
    version: &str,
    target: &str,
) -> (r: Result<(), AppError>)
    ensures
        format_version != 1 ==> fails_with_input(
            r,
            "unsupported self-update manifest version "@ + crate::text::nat_decimal(
                format_version as nat,
            ),
        ),
        format_version == 1 && (manifest_version@ != version@ || manifest_target@ != target@
            || manifest_revision@.len() == 0) ==> fails_with_input(
            r,
            "release manifest does not match the downloaded release"@,
        ),
        format_version == 1 && manifest_version@ == version@ && manifest_target@ == target@
            && manifest_revision@.len() > 0 ==> r is Ok,
{
    if format_version != 1 {
        let n = crate::text::u64_to_decimal(format_version);
        return Err(AppError::InvalidInput(concat("unsupported self-update manifest version ", n.as_str())));
    }
    if !str_equals(manifest_version, version) || !str_equals(manifest_target, target)
        || manifest_revision.unicode_len() == 0 {
        return Err(invalid_input("release manifest does not match the downloaded release"));
    }
    Ok(())
}

/// A line without the `\r` of a `\r\n` ending.
pub open spec fn strip_cr(line: Seq<char>) -> Seq<char> {
    if line.len() > 0 && line.last() == '\r' {
        line.drop_last()
    } else {
        line
    }
}

/// The lines of a text, as `str::lines` gives them: split at `\n`, a
/// `\r` before the `\n` dropped, and no empty line after a final `\n`.
pub open spec fn text_lines(s: Seq<char>) -> Seq<Seq<char>> {
    let segs = split_on(s, '\n');
    let n = segs.len() as int;
    let ended = Seq::new((n - 1) as nat, |i: int| strip_cr(segs[i]));
    if segs[n - 1].len() > 0 {
        ended.push(segs[n - 1])
    } else {
        ended
    }
}

/// The manifest of a managed skill starts with a `---` header block that
/// holds `name: NAME`.
pub open spec fn skill_name_found(lines: Seq<Seq<char>>, expected: Seq<char>) -> bool {
    &&& lines.len() > 0
    &&& lines[0] == "---"@
    &&& exists|i: int|
        1 <= i < lines.len() && lines[i] != "---"@ && trim(#[trigger] lines[i]) == "name: "@ + expected
            && forall|j: int| 1 <= j < i ==> lines[j] != "---"@
}

fn text_lines_of(contents: &str) -> (r: Vec<String>)
    ensures
        r@.map_values(|l: String| l@) == text_lines(contents@),
{
    let chars = chars_of(contents);
    let mut segs: Vec<Vec<char>> = Vec::new();
    let mut current: Vec<char> = Vec::new();
    let mut i: usize = 0;
    while i < chars.len()
        invariant
            i <= chars.len(),
            chars@ == contents@,
            segs@.map_values(|v: Vec<char>| v@).push(current@) == split_on(chars@.take(i as int), '\n'),
        decreases chars.len() - i,
    {
        let c = chars[i];
        proof {
            assert(chars@.take(i + 1).drop_last() =~= chars@.take(i as int));
            assert(chars@.take(i + 1).last() == c);
        }
        let ghost before = segs@.map_values(|v: Vec<char>| v@);
        if c == '\n' {
            let done = current;
            current = Vec::new();
            segs.push(done);
            assert(segs@.map_values(|v: Vec<char>| v@) =~= before.push(done@));
            assert(segs@.map_values(|v: Vec<char>| v@).push(current@) =~= before.push(done@).push(Seq::empty()));
        } else {
            let ghost old_current = current@;
            current.push(c);
            assert(before.push(old_current).drop_last() =~= before);
        }
        i = i + 1;
    }
    assert(chars@.take(i as int) =~= chars@);
    let ghost all = segs@.map_values(|v: Vec<char>| v@).push(current@);
    let mut lines: Vec<String> = Vec::new();
    let mut k: usize = 0;
    while k < segs.len()
        invariant
            k <= segs.len(),
            all == segs@.map_values(|v: Vec<char>| v@).push(current@),
            all == split_on(contents@, '\n'),
            lines@.map_values(|l: String| l@) == Seq::new(k as nat, |j: int| strip_cr(all[j])),
        decreases segs.len() - k,
    {
        let seg = &segs[k];
        assert(all[k as int] == seg@);
        let stripped = if seg.len() > 0 && seg[seg.len() - 1] == '\r' {
            let mut t: Vec<char> = Vec::new();
            let mut j: usize = 0;
            while j + 1 < seg.len()
                invariant
                    j + 1 <= seg.len(),
                    t@ == seg@.take(j as int),
                decreases seg.len() - j,
            {
                t.push(seg[j]);
                j = j + 1;
                assert(t@ =~= seg@.take(j as int));
            }
            assert(seg@.take(j as int) =~= seg@.drop_last());
            t
        } else {
            let mut t: Vec<char> = Vec::new();
            let mut j: usize = 0;
            while j < seg.len()
                invariant
                    j <= seg.len(),
                    t@ == seg@.take(j as int),
                decreases seg.len() - j,
            {
                t.push(seg[j]);
                j = j + 1;
                assert(t@ =~= seg@.take(j as int));
            }
            assert(seg@.take(j as int) =~= seg@);
            t
        };
        assert(stripped@ == strip_cr(seg@));
        let ghost before = lines@.map_values(|l: String| l@);
        lines.push(string_from_chars(&stripped));
        assert(lines@.map_values(|l: String| l@) =~= before.push(stripped@));
        assert(lines@.map_values(|l: String| l@) =~= Seq::new((k + 1) as nat, |j: int| strip_cr(all[j])));
        k = k + 1;
    }
    if current.len() > 0 {
        let ghost before = lines@.map_values(|l: String| l@);
        lines.push(string_from_chars(&current));
        assert(lines@.map_values(|l: String| l@) =~= before.push(current@));
    }
    proof {
        assert(all.len() == segs@.len() + 1);
        assert(all[all.len() - 1] == current@);
    }
    lines
}

/// Whether a skill manifest names the skill `expected_name` in its header.
pub fn has_skill_name(contents: &str, expected_name: &str) -> (b: bool)
    ensures
        b == skill_name_found(text_lines(contents@), expected_name@),
{
    let lines = text_lines_of(contents);
    let ghost ls = text_lines(contents@);
    proof {
        assert(lines@.len() == ls.len());
    }
    if lines.len() == 0 || !str_equals(lines[0].as_str(), "---") {
        proof {
            if lines@.len() > 0 {
                assert(ls[0] == lines@[0]@);
            }
        }
        return false;
    }
    assert(ls[0] == lines@[0]@);
    let target = concat("name: ", expected_name);
    let mut i: usize = 1;
    while i < lines.len()
        invariant
            1 <= i <= lines.len(),
            lines@.len() == ls.len(),
            ls == text_lines(contents@),
            ls.len() > 0,
            ls[0] == "---"@,
            ls == lines@.map_values(|l: String| l@),
            target@ == "name: "@ + expected_name@,
            forall|j: int| 1 <= j < i ==> ls[j] != "---"@ && trim(#[trigger] ls[j]) != target@,
        decreases lines.len() - i,
    {
        assert(ls[i as int] == lines@[i as int]@);
        if str_equals(lines[i].as_str(), "---") {
            proof {
                assert forall|k: int| 1 <= k < ls.len() && ls[k] != "---"@ && trim(#[trigger] ls[k]) == target@
                    implies !(forall|j: int| 1 <= j < k ==> ls[j] != "---"@) by {
                    assert(k > i);
                    assert(ls[i as int] == "---"@);
                }
            }
            return false;
        }
        let trimmed = crate::text::trim_str(lines[i].as_str());
        if str_equals(trimmed.as_str(), target.as_str()) {
            assert(1 <= i < ls.len() && ls[i as int] != "---"@ && trim(ls[i as int]) == "name: "@ + expected_name@);
            return true;
        }
        i = i + 1;
    }
    false
}

/// The text without its trailing `/`s.
pub open spec fn strip_trailing_slashes(s: Seq<char>) -> Seq<char>
    decreases s.len(),
{
    if s.len() > 0 && s.last() == '/' {
        strip_trailing_slashes(s.drop_last())
    } else {
        s
    }
}

/// An archive entry is unsafe when its path is absolute or climbs with `..`.
pub open spec fn unsafe_entry(entry: Seq<char>) -> bool {
    let path = strip_trailing_slashes(entry);
    (path.len() > 0 && path[0] == '/') || split_on(path, '/').contains(".."@)
}

/// The first unsafe entry of an archive listing, if any.
pub open spec fn first_unsafe_entry(lines: Seq<Seq<char>>) -> Option<Seq<char>>
    decreases lines.len(),
{
    if lines.len() == 0 {
        None
    } else if unsafe_entry(lines[0]) {
        Some(lines[0])
    } else {
        first_unsafe_entry(lines.drop_first())
    }
}

#[verifier::loop_isolation(false)]
fn is_unsafe_entry(entry: &str) -> (b: bool)
    ensures
        b == unsafe_entry(entry@),
{
    let chars = chars_of(entry);
    let mut end = chars.len();
    assert(chars@.take(end as int) =~= chars@);
    while end > 0 && chars[end - 1] == '/'
        invariant
            end <= chars.len(),
            chars@ == entry@,
            strip_trailing_slashes(entry@) == strip_trailing_slashes(chars@.take(end as int)),
        decreases end,
    {
        assert(chars@.take(end as int).drop_last() =~= chars@.take(end - 1));
        end = end - 1;
    }
    let ghost path = chars@.take(end as int);
    assert(strip_trailing_slashes(entry@) == path);
    if end > 0 && chars[0] == '/' {
        return true;
    }
    // the components between slashes
    let mut current: Vec<char> = Vec::new();
    let mut segs: Vec<Vec<char>> = Vec::new();
    let mut i: usize = 0;
    while i < end
        invariant
            i <= end <= chars.len(),
            path == chars@.take(end as int),
            segs@.map_values(|v: Vec<char>| v@).push(current@) == split_on(path.take(i as int), '/'),
        decreases end - i,
    {
        let c = chars[i];
        proof {
            assert(path.take(i + 1).drop_last() =~= path.take(i as int));
            assert(path.take(i + 1).last() == c);
        }
        let ghost before = segs@.map_values(|v: Vec<char>| v@);
        if c == '/' {
            let done = current;
            current = Vec::new();
            segs.push(done);
            assert(segs@.map_values(|v: Vec<char>| v@) =~= before.push(done@));
            assert(segs@.map_values(|v: Vec<char>| v@).push(current@) =~= before.push(done@).push(Seq::empty()));
        } else {
            let ghost old_current = current@;
            current.push(c);
            assert(before.push(old_current).drop_last() =~= before);
        }
        i = i + 1;
    }
    assert(path.take(i as int) =~= path);
    segs.push(current);
    let ghost parts = segs@.map_values(|v: Vec<char>| v@);
    let mut k: usize = 0;
    while k < segs.len()
        invariant
            k <= segs.len(),
            parts == segs@.map_values(|v: Vec<char>| v@),
            parts == split_on(path, '/'),
            forall|j: int| 0 <= j < k ==> parts[j] != ".."@,
        decreases segs.len() - k,
    {
        let t = string_from_chars(&segs[k]);
        assert(parts[k as int] == segs@[k as int]@);
        if str_equals(t.as_str(), "..") {
            assert(parts.contains(".."@));
            return true;
        }
        k = k + 1;
    }
    false
}

/// Checks the entries of a release archive: no absolute path and no `..`.
#[verifier::loop_isolation(false)]
pub fn check_archive_listing(listing: &str) -> (r: Result<(), AppError>)
    ensures
        match first_unsafe_entry(text_lines(listing@)) {
            Some(e) => fails_with_input(r, "release archive contains an unsafe path: "@ + e),
            None => r is Ok,
        },
{
    let lines = text_lines_of(listing);
    let ghost ls = text_lines(listing@);
    let mut i: usize = 0;
    assert(ls.skip(0) =~= ls);
    while i < lines.len()
        invariant
            i <= lines.len(),
            ls == lines@.map_values(|l: String| l@),
            first_unsafe_entry(ls) == first_unsafe_entry(ls.skip(i as int)),
        decreases lines.len() - i,
    {
        assert(ls.skip(i as int)[0] == lines@[i as int]@);
        assert(ls.skip(i as int).drop_first() =~= ls.skip(i + 1));
        if is_unsafe_entry(lines[i].as_str()) {
            return Err(
                AppError::InvalidInput(
                    concat("release archive contains an unsafe path: ", lines[i].as_str()),
                ),
            );
        }
        i = i + 1;
    }
    assert(ls.skip(i as int) =~= Seq::<Seq<char>>::empty());
    Ok(())
}

/// Every entry of a verbose archive listing is a regular file (`-`) or a
/// directory (`d`).
pub open spec fn regular_entries(lines: Seq<Seq<char>>) -> bool {
    forall|i: int| 0 <= i < lines.len() ==> (#[trigger] lines[i]).len() > 0 && (lines[i][0] == '-'
        || lines[i][0] == 'd')
}

/// Checks that a release archive holds only regular files and directories.
#[verifier::loop_isolation(false)]
pub fn check_archive_kinds(verbose_listing: &str) -> (r: Result<(), AppError>)
    ensures
        regular_entries(text_lines(verbose_listing@)) ==> r is Ok,
        !regular_entries(text_lines(verbose_listing@)) ==> fails_with_input(
            r,
            "release archive contains a non-regular entry"@,
        ),
{
    let lines = text_lines_of(verbose_listing);
    let ghost ls = text_lines(verbose_listing@);
    let mut i: usize = 0;
    while i < lines.len()
        invariant
            i <= lines.len(),
            ls == lines@.map_values(|l: String| l@),
            forall|j: int| 0 <= j < i ==> (#[trigger] ls[j]).len() > 0 && (ls[j][0] == '-' || ls[j][0] == 'd'),
        decreases lines.len() - i,
    {
        let chars = chars_of(lines[i].as_str());
        assert(ls[i as int] == chars@);
        if chars.len() == 0 || (chars[0] != '-' && chars[0] != 'd') {
            return Err(invalid_input("release archive contains a non-regular entry"));
        }
        i = i + 1;
    }
    Ok(())
}

/// Where the skills of an agent live: its configuration directory from the
/// environment, else the home directory, where the caller appends the
/// agent's default directory (`true`).
pub fn skill_root(environment_name: &str, value: Option<String>, home: Option<String>) -> (r: Result<
    (String, bool),
    AppError,
>)
    ensures
        match value {
            Some(v) => if v@.len() > 0 {
                r == Ok::<(String, bool), AppError>((v, false))
            } else {
                fails_with_input(r, environment_name@ + " must not be empty"@)
            },
            None => match home {
                Some(h) => r == Ok::<(String, bool), AppError>((h, true)),
                None => fails_with_input(r, environment_name@ + " or HOME must be set"@),
            },
        },
{
    match value {
        Some(v) => {
            if v.as_str().unicode_len() > 0 {
                Ok((v, false))
            } else {
                Err(AppError::InvalidInput(concat(environment_name, " must not be empty")))
            }
        },
        None => match home {
            Some(h) => Ok((h, true)),
            None => Err(AppError::InvalidInput(concat(environment_name, " or HOME must be set"))),
        },
    }
}

/// The name under which a skill is kept while it is replaced.
pub fn backup_name(name: &str) -> (s: String)
    ensures
        s@ == "."@ + name@ + ".bettr-self-update-backup"@,
{
    concat3(".", name, ".bettr-self-update-backup")
}

} // verus!
