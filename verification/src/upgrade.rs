//! Self-upgrade from GitHub releases: the options, the release metadata,
//! and the decisions taken on them.  Network and file work is left to the
//! caller.
use crate::text::{
    chars_of, concat2, contains_str, ends_with, eq_ignore_ascii_case, from_chars, nonempty_pieces,
    owned, push_char, replace_char, spec_contains, spec_replace_char, spec_ends_with, spec_eq_ignore_ascii_case, spec_split,
    split_chars, str_eq, views,
};
use sha2::Digest;
use vstd::prelude::*;

verus! {

// ---------------------------------------------------------------------------
// Errors
// ---------------------------------------------------------------------------

/// Why an upgrade cannot go ahead.
#[derive(Debug, Clone)]
pub enum UpgradeError {
    /// No release binary is published for this operating system and machine.
    UnsupportedPlatform { os: String, arch: String },
    /// The running executable was installed by Nix.
    NixManaged,
    /// The list of releases is empty.
    NoReleases,
    /// The release has no asset of that name.
    AssetNotFound(String),
    /// The release manifest has no asset for that runtime identifier.
    NoAssetForRid(String),
    /// The asset for the runtime identifier has no download URL.
    MissingAssetUrl,
    /// The downloaded file does not have the published SHA-256.
    HashMismatch { file_name: String, expected: String, actual: String },
    /// The zip asset is not a zip archive.
    InvalidZip,
    /// An entry of the archive could not be read.
    UnreadableArchiveEntry,
    /// No entry of the archive is the `jav` executable.
    MissingExecutable,
}

/// An upgrade error as plain sequences.
pub enum UpgradeErrorView {
    UnsupportedPlatform { os: Seq<char>, arch: Seq<char> },
    NixManaged,
    NoReleases,
    AssetNotFound(Seq<char>),
    NoAssetForRid(Seq<char>),
    MissingAssetUrl,
    HashMismatch { file_name: Seq<char>, expected: Seq<char>, actual: Seq<char> },
    InvalidZip,
    UnreadableArchiveEntry,
    MissingExecutable,
}

impl View for UpgradeError {
    type V = UpgradeErrorView;

    open spec fn view(&self) -> UpgradeErrorView {
        match self {
            UpgradeError::UnsupportedPlatform { os, arch } => UpgradeErrorView::UnsupportedPlatform {
                os: os@,
                arch: arch@,
            },
            UpgradeError::NixManaged => UpgradeErrorView::NixManaged,
            UpgradeError::NoReleases => UpgradeErrorView::NoReleases,
            UpgradeError::AssetNotFound(n) => UpgradeErrorView::AssetNotFound(n@),
            UpgradeError::NoAssetForRid(r) => UpgradeErrorView::NoAssetForRid(r@),
            UpgradeError::MissingAssetUrl => UpgradeErrorView::MissingAssetUrl,
            UpgradeError::HashMismatch { file_name, expected, actual } =>
                UpgradeErrorView::HashMismatch {
                file_name: file_name@,
                expected: expected@,
                actual: actual@,
            },
            UpgradeError::InvalidZip => UpgradeErrorView::InvalidZip,
            UpgradeError::UnreadableArchiveEntry => UpgradeErrorView::UnreadableArchiveEntry,
            UpgradeError::MissingExecutable => UpgradeErrorView::MissingExecutable,
        }
    }
}

/// The message shown for an upgrade error.
pub open spec fn spec_upgrade_message(e: UpgradeErrorView) -> Seq<char> {
    match e {
        UpgradeErrorView::UnsupportedPlatform { os, arch } => "automatic upgrade is unsupported on "@
            + os + "-"@ + arch,
        UpgradeErrorView::NixManaged =>
            "auto-upgrade is unavailable for a Nix-managed install; use `nix run --refresh` or `nix profile upgrade`"@,
        UpgradeErrorView::NoReleases => "no GitHub releases found"@,
        UpgradeErrorView::AssetNotFound(n) => "release asset not found: "@ + n,
        UpgradeErrorView::NoAssetForRid(r) => "no release asset found for rid "@ + r,
        UpgradeErrorView::MissingAssetUrl =>
            "release.json is missing assets[].url for downloadable upgrade assets"@,
        UpgradeErrorView::HashMismatch { file_name, expected, actual } => "invalid SHA256 for "@
            + file_name + ": expected "@ + expected + ", got "@ + actual,
        UpgradeErrorView::InvalidZip => "invalid zip release asset"@,
        UpgradeErrorView::UnreadableArchiveEntry => "failed to read the release archive"@,
        UpgradeErrorView::MissingExecutable => "archive is missing jav executable"@,
    }
}

impl UpgradeError {
    /// The message shown for the error.
    pub fn message(&self) -> (r: String)
        ensures
            r@ == spec_upgrade_message(self@),
    {
        match self {
            UpgradeError::UnsupportedPlatform { os, arch } => {
                let mut r = owned("automatic upgrade is unsupported on ");
                r.append(os.as_str());
                r.append("-");
                r.append(arch.as_str());
                r
            },
            UpgradeError::NixManaged => owned(
                "auto-upgrade is unavailable for a Nix-managed install; use `nix run --refresh` or `nix profile upgrade`",
            ),
            UpgradeError::NoReleases => owned("no GitHub releases found"),
            UpgradeError::AssetNotFound(n) => concat2("release asset not found: ", n.as_str()),
            UpgradeError::NoAssetForRid(r) => concat2("no release asset found for rid ", r.as_str()),
            UpgradeError::MissingAssetUrl => owned(
                "release.json is missing assets[].url for downloadable upgrade assets",
            ),
            UpgradeError::HashMismatch { file_name, expected, actual } => {
                let mut r = owned("invalid SHA256 for ");
                r.append(file_name.as_str());
                r.append(": expected ");
                r.append(expected.as_str());
                r.append(", got ");
                r.append(actual.as_str());
                r
            },
            UpgradeError::InvalidZip => owned("invalid zip release asset"),
            UpgradeError::UnreadableArchiveEntry => owned("failed to read the release archive"),
            UpgradeError::MissingExecutable => owned("archive is missing jav executable"),
        }
    }
}

// ---------------------------------------------------------------------------
// Options and release metadata
// ---------------------------------------------------------------------------

/// Where upgrades come from.
#[derive(Debug, Clone)]
pub struct UpdateOptions {
    pub owner: String,
    pub repository: String,
    pub include_prerelease: bool,
    pub asset_name: String,
}

/// A value of `JAV_UPGRADE_PRERELEASE` that turns pre-releases on.
pub open spec fn is_truthy(v: Seq<char>) -> bool {
    v == "1"@ || v == "true"@ || v == "TRUE"@ || v == "yes"@ || v == "YES"@
}

/// A setting, or its default when unset.
pub open spec fn or_default(v: Option<Seq<char>>, default: Seq<char>) -> Seq<char> {
    match v {
        Some(s) => s,
        None => default,
    }
}

impl UpdateOptions {
    /// The options from the values of `JAV_UPGRADE_OWNER`,
    /// `JAV_UPGRADE_REPOSITORY`, `JAV_UPGRADE_PRERELEASE` and
    /// `JAV_UPGRADE_ASSET` (`None` where a variable is unset): the owner
    /// defaults to `sachahjkl`, the repository to `jav`, the asset to
    /// `release.json`, and pre-releases are included only for `1`, `true`,
    /// `TRUE`, `yes` or `YES`.
    pub fn from_env_values(
        owner: Option<String>,
        repository: Option<String>,
        prerelease: Option<String>,
        asset: Option<String>,
    ) -> (r: UpdateOptions)
        ensures
            r.owner@ == or_default(crate::text::opt_string_view(owner), "sachahjkl"@),
            r.repository@ == or_default(crate::text::opt_string_view(repository), "jav"@),
            r.include_prerelease == (prerelease matches Some(p) && is_truthy(p@)),
            r.asset_name@ == or_default(crate::text::opt_string_view(asset), "release.json"@),
    {
        let include_prerelease = match &prerelease {
            Some(p) => {
                let v = p.as_str();
                str_eq(v, "1") || str_eq(v, "true") || str_eq(v, "TRUE") || str_eq(v, "yes")
                    || str_eq(v, "YES")
            },
            None => false,
        };
        UpdateOptions {
            owner: match owner {
                Some(o) => o,
                None => owned("sachahjkl"),
            },
            repository: match repository {
                Some(r) => r,
                None => owned("jav"),
            },
            include_prerelease,
            asset_name: match asset {
                Some(a) => a,
                None => owned("release.json"),
            },
        }
    }
}

/// A GitHub release, as far as upgrades read it.
#[derive(Debug, Clone)]
pub struct GitHubRelease {
    pub assets: Vec<GitHubReleaseAsset>,
}

/// A file attached to a GitHub release.
#[derive(Debug, Clone)]
pub struct GitHubReleaseAsset {
    pub name: String,
    pub browser_download_url: String,
}

/// The `release.json` manifest published with each release.
#[derive(Debug, Clone)]
pub struct ReleaseManifest {
    pub version: String,
    pub commit: String,
    pub assets: Vec<ReleaseAsset>,
}

/// One downloadable build in a release manifest.
#[derive(Debug, Clone)]
pub struct ReleaseAsset {
    pub rid: String,
    pub file_name: String,
    pub sha256: String,
    pub url: String,
}

// ---------------------------------------------------------------------------
// Host checks
// ---------------------------------------------------------------------------

/// The runtime identifier of the release binary for an operating system and
/// machine (`std::env::consts::OS` and `ARCH`).
pub open spec fn spec_rid(os: Seq<char>, arch: Seq<char>) -> Option<Seq<char>> {
    if os == "linux"@ && arch == "x86_64"@ {
        Some("linux-x64"@)
    } else if os == "windows"@ && arch == "x86_64"@ {
        Some("win-x64"@)
    } else {
        None
    }
}

/// The runtime identifier of the release binary for an operating system and
/// machine: `linux-x64` and `win-x64` are published.
pub fn detect_rid(os: &str, arch: &str) -> (r: Result<&'static str, UpgradeError>)
    ensures
        match spec_rid(os@, arch@) {
            Some(rid) => r matches Ok(s) && s@ == rid,
            None => r matches Err(e) && e@ == (UpgradeErrorView::UnsupportedPlatform {
                os: os@,
                arch: arch@,
            }),
        },
{
    if str_eq(os, "linux") && str_eq(arch, "x86_64") {
        Ok("linux-x64")
    } else if str_eq(os, "windows") && str_eq(arch, "x86_64") {
        Ok("win-x64")
    } else {
        Err(UpgradeError::UnsupportedPlatform { os: owned(os), arch: owned(arch) })
    }
}

/// An executable under a Nix store cannot upgrade itself.
pub open spec fn is_nix_managed(executable: Seq<char>) -> bool {
    spec_contains(executable, "/nix/store/"@) || spec_contains(executable, "\\nix\\store\\"@)
}

/// Refuses to upgrade an executable installed by Nix; `executable` is the
/// displayed path of the running executable.
pub fn ensure_supported_host(executable: &str) -> (r: Result<(), UpgradeError>)
    ensures
        r is Ok <==> !is_nix_managed(executable@),
        r matches Err(e) ==> e@ == UpgradeErrorView::NixManaged,
{
    if contains_str(executable, "/nix/store/") || contains_str(executable, "\\nix\\store\\") {
        return Err(UpgradeError::NixManaged);
    }
    Ok(())
}

// ---------------------------------------------------------------------------
// Releases
// ---------------------------------------------------------------------------

/// The GitHub API address that lists the releases, or gives the latest one.
pub open spec fn spec_releases_url(owner: Seq<char>, repository: Seq<char>, prerelease: bool) -> Seq<
    char,
> {
    "https://api.github.com/repos/"@ + owner + "/"@ + repository + if prerelease {
        "/releases"@
    } else {
        "/releases/latest"@
    }
}

/// The GitHub API address to ask for releases: with pre-releases the list
/// of all releases (newest first), else the latest release.
pub fn releases_url(options: &UpdateOptions) -> (r: String)
    ensures
        r@ == spec_releases_url(options.owner@, options.repository@, options.include_prerelease),
{
    let mut r = owned("https://api.github.com/repos/");
    r.append(options.owner.as_str());
    r.append("/");
    r.append(options.repository.as_str());
    if options.include_prerelease {
        r.append("/releases");
    } else {
        r.append("/releases/latest");
    }
    r
}

/// The newest of a list of releases, which GitHub gives newest first.
pub fn first_release(releases: Vec<GitHubRelease>) -> (r: Result<GitHubRelease, UpgradeError>)
    ensures
        releases@.len() == 0 ==> (r matches Err(e) && e@ == UpgradeErrorView::NoReleases),
        releases@.len() > 0 ==> r == Ok::<GitHubRelease, UpgradeError>(releases@[0]),
{
    let mut releases = releases;
    if releases.len() == 0 {
        return Err(UpgradeError::NoReleases);
    }
    Ok(releases.remove(0))
}

/// The download address of the asset named `asset_name`: that of the first
/// asset of the release with this name.
pub fn manifest_asset_url(release: &GitHubRelease, asset_name: &str) -> (r: Result<
    String,
    UpgradeError,
>)
    ensures
        match r {
            Ok(url) => exists|i: int|
                0 <= i < release.assets@.len() && release.assets@[i].name@ == asset_name@ && (
                forall|j: int|
                    0 <= j < i ==> (#[trigger] release.assets@[j]).name@ != asset_name@) && url@
                    == release.assets@[i].browser_download_url@,
            Err(e) => e@ == UpgradeErrorView::AssetNotFound(asset_name@) && forall|j: int|
                0 <= j < release.assets@.len() ==> (#[trigger] release.assets@[j]).name@
                    != asset_name@,
        },
{
    let mut i: usize = 0;
    while i < release.assets.len()
        invariant
            i <= release.assets@.len(),
            forall|j: int|
                0 <= j < i ==> (#[trigger] release.assets@[j]).name@ != asset_name@,
        decreases release.assets@.len() - i,
    {
        if str_eq(release.assets[i].name.as_str(), asset_name) {
            return Ok(release.assets[i].browser_download_url.clone());
        }
        i = i + 1;
    }
    Err(UpgradeError::AssetNotFound(owned(asset_name)))
}

// ---------------------------------------------------------------------------
// Hashes
// ---------------------------------------------------------------------------

/// The SHA-256 digest of some bytes.
pub uninterp spec fn sha256(data: Seq<u8>) -> Seq<u8>;

/// Hashes bytes with SHA-256.
///
/// Trusted: `sha2::Sha256::digest`, whose result is named `sha256` over the
/// bytes; a SHA-256 digest is 32 bytes long.
#[verifier::external_body]
fn sha256_digest(data: &[u8]) -> (r: Vec<u8>)
    ensures
        r@ == sha256(data@),
        r@.len() == 32,
{
    sha2::Sha256::digest(data).to_vec()
}

/// The lower-case hexadecimal digit of a value below 16.
pub open spec fn hex_digit(n: u8) -> char
    recommends
        n < 16,
{
    if n < 10 {
        ((48 + n) as u8) as char
    } else {
        ((87 + n) as u8) as char
    }
}

/// Bytes in lower-case hexadecimal, two digits each (`format!("{:02x}")`).
pub open spec fn spec_hex(bytes: Seq<u8>) -> Seq<char>
    decreases bytes.len(),
{
    if bytes.len() == 0 {
        Seq::empty()
    } else {
        spec_hex(bytes.drop_last()) + seq![
            hex_digit(bytes.last() / 16),
            hex_digit(bytes.last() % 16),
        ]
    }
}

fn hex_digit_exec(n: u8) -> (c: char)
    requires
        n < 16,
    ensures
        c == hex_digit(n),
{
    if n < 10 {
        (48 + n) as char
    } else {
        (87 + n) as char
    }
}

/// Bytes in lower-case hexadecimal.
pub fn to_hex(bytes: &[u8]) -> (r: String)
    ensures
        r@ == spec_hex(bytes@),
{
    let mut r = String::new();
    let mut i: usize = 0;
    while i < bytes.len()
        invariant
            i <= bytes@.len(),
            r@ == spec_hex(bytes@.take(i as int)),
        decreases bytes@.len() - i,
    {
        let b = bytes[i];
        assert(bytes@.take(i + 1).drop_last() =~= bytes@.take(i as int));
        assert(bytes@.take(i + 1).last() == b);
        push_char(&mut r, hex_digit_exec(b / 16));
        push_char(&mut r, hex_digit_exec(b % 16));
        assert(r@ =~= spec_hex(bytes@.take(i + 1)));
        i = i + 1;
    }
    assert(bytes@.take(bytes@.len() as int) =~= bytes@);
    r
}

/// A lower-case hexadecimal digit.
pub open spec fn is_lower_hex_digit(c: char) -> bool {
    ('0' <= c && c <= '9') || ('a' <= c && c <= 'f')
}

/// The hexadecimal form of bytes has two lower-case digits per byte.
pub proof fn lemma_hex_shape(bytes: Seq<u8>)
    ensures
        spec_hex(bytes).len() == 2 * bytes.len(),
        forall|i: int| 0 <= i < spec_hex(bytes).len() ==> is_lower_hex_digit(#[trigger] spec_hex(bytes)[i]),
    decreases bytes.len(),
{
    if bytes.len() > 0 {
        lemma_hex_shape(bytes.drop_last());
        let prev = spec_hex(bytes.drop_last());
        let b = bytes.last();
        let pair = seq![hex_digit(b / 16), hex_digit(b % 16)];
        assert(is_lower_hex_digit(hex_digit(b / 16)));
        assert(is_lower_hex_digit(hex_digit(b % 16)));
        assert forall|i: int| 0 <= i < spec_hex(bytes).len() implies is_lower_hex_digit(
            #[trigger] spec_hex(bytes)[i],
        ) by {
            if i < prev.len() {
                assert(spec_hex(bytes)[i] == prev[i]);
            } else {
                assert(spec_hex(bytes)[i] == pair[i - prev.len()]);
            }
        }
    }
}

/// The SHA-256 of a file, as `sha256_hex` gives it, is 64 lower-case
/// hexadecimal digits.
pub proof fn lemma_sha256_hex_shape(data: Seq<u8>)
    requires
        sha256(data).len() == 32,
    ensures
        spec_hex(sha256(data)).len() == 64,
        forall|i: int| 0 <= i < 64 ==> is_lower_hex_digit(#[trigger] spec_hex(sha256(data))[i]),
{
    lemma_hex_shape(sha256(data));
}

/// The SHA-256 of the bytes of a file, in lower-case hexadecimal.
pub fn sha256_hex(data: &[u8]) -> (r: String)
    ensures
        r@ == spec_hex(sha256(data@)),
        r@.len() == 64,
        forall|i: int| 0 <= i < 64 ==> is_lower_hex_digit(#[trigger] r@[i]),
{
    let digest = sha256_digest(data);
    proof {
        lemma_sha256_hex_shape(data@);
    }
    to_hex(digest.as_slice())
}

// ---------------------------------------------------------------------------
// Release assets
// ---------------------------------------------------------------------------

/// How a downloaded release asset holds the executable.
#[derive(Debug, Clone, Copy, PartialEq, Eq, Structural)]
pub enum ArchiveKind {
    /// A zip archive.
    Zip,
    /// A gzip-compressed tar archive.
    TarGz,
    /// The executable itself.
    Plain,
}

/// How an asset holds the executable, by the end of its file name.
pub open spec fn spec_archive_kind(asset_name: Seq<char>) -> ArchiveKind {
    if spec_ends_with(asset_name, ".zip"@) {
        ArchiveKind::Zip
    } else if spec_ends_with(asset_name, ".tar.gz"@) || spec_ends_with(asset_name, ".tgz"@) {
        ArchiveKind::TarGz
    } else {
        ArchiveKind::Plain
    }
}

/// How an asset holds the executable: `.zip`, then `.tar.gz` or `.tgz`,
/// else the asset is the executable.
pub fn archive_kind(asset_name: &str) -> (r: ArchiveKind)
    ensures
        r == spec_archive_kind(asset_name@),
{
    if ends_with(asset_name, ".zip") {
        ArchiveKind::Zip
    } else if ends_with(asset_name, ".tar.gz") || ends_with(asset_name, ".tgz") {
        ArchiveKind::TarGz
    } else {
        ArchiveKind::Plain
    }
}

/// The components of an archive path that name something: the pieces
/// between `/` that are neither empty nor `.`.
pub open spec fn named_components(path: Seq<char>) -> Seq<Seq<char>> {
    nonempty_pieces(spec_split(path, '/')).filter(|p: Seq<char>| p != seq!['.'])
}

/// The file name of an archive path (`Path::file_name`): its last named
/// component, unless that is `..`.
pub open spec fn spec_file_name(path: Seq<char>) -> Option<Seq<char>> {
    let cs = named_components(path);
    if cs.len() == 0 || cs.last() == seq!['.', '.'] {
        None
    } else {
        Some(cs.last())
    }
}

/// An archive entry that is the `jav` executable: its file name is `jav`,
/// or `jav.exe` in any case.
pub open spec fn spec_is_executable_entry(path: Seq<char>) -> bool {
    match spec_file_name(path) {
        Some(n) => spec_eq_ignore_ascii_case(n, "jav.exe"@) || n == "jav"@,
        None => false,
    }
}

/// The file name of an archive path.
pub fn file_name(path: &str) -> (r: Option<String>)
    ensures
        match r {
            Some(n) => spec_file_name(path@) == Some(n@),
            None => spec_file_name(path@) is None,
        },
{
    let chars = chars_of(path);
    let pieces = split_chars(&chars, '/');
    let ghost spec_pieces = spec_split(path@, '/');
    let ghost pred = |p: Seq<char>| p != seq!['.'];
    let mut kept: Vec<Vec<char>> = Vec::new();
    let mut i: usize = 0;
    while i < pieces.len()
        invariant
            pieces@.len() == spec_pieces.len(),
            spec_pieces == spec_split(path@, '/'),
            pred == (|p: Seq<char>| p != seq!['.']),
            forall|j: int| 0 <= j < pieces@.len() ==> #[trigger] pieces@[j]@ == spec_pieces[j],
            i <= pieces@.len(),
            kept@.len() == nonempty_pieces(spec_pieces.take(i as int)).filter(pred).len(),
            forall|j: int|
                0 <= j < kept@.len() ==> #[trigger] kept@[j]@ == nonempty_pieces(
                    spec_pieces.take(i as int),
                ).filter(pred)[j],
        decreases pieces@.len() - i,
    {
        let ghost before = nonempty_pieces(spec_pieces.take(i as int));
        assert(spec_pieces.take(i + 1).drop_last() =~= spec_pieces.take(i as int));
        assert(spec_pieces.take(i + 1).last() == pieces@[i as int]@);
        let p = &pieces[i];
        let is_dot = p.len() == 1 && p[0] == '.';
        if p.len() > 0 {
            let ghost after = before.push(p@);
            assert(after.drop_last() =~= before);
            reveal_with_fuel(Seq::filter, 1);
            if !is_dot {
                assert(p@ != seq!['.']) by {
                    if p@ == seq!['.'] {
                        assert(p@.len() == 1 && p@[0] == '.');
                    }
                }
                kept.push(p.clone());
            } else {
                assert(p@ =~= seq!['.']);
            }
        }
        i = i + 1;
    }
    assert(spec_pieces.take(pieces@.len() as int) =~= spec_pieces);
    let n = kept.len();
    if n == 0 {
        return None;
    }
    let last = &kept[n - 1];
    if last.len() == 2 && last[0] == '.' && last[1] == '.' {
        assert(last@ =~= seq!['.', '.']);
        return None;
    }
    assert(last@ != seq!['.', '.']) by {
        if last@ == seq!['.', '.'] {
            assert(last@.len() == 2 && last@[0] == '.' && last@[1] == '.');
        }
    }
    Some(from_chars(last.as_slice()))
}

/// Whether an archive entry is the `jav` executable.
pub fn is_executable_entry(path: &str) -> (r: bool)
    ensures
        r == spec_is_executable_entry(path@),
{
    match file_name(path) {
        Some(n) => eq_ignore_ascii_case(n.as_str(), "jav.exe") || str_eq(n.as_str(), "jav"),
        None => false,
    }
}

// ---------------------------------------------------------------------------
// Taking the executable out of a release asset
// ---------------------------------------------------------------------------

/// What `zip::ZipArchive::new` reads from the bytes of a zip archive: the
/// number of its entries, or `None` when the bytes are not a zip archive.
pub uninterp spec fn zip_entry_count(archive: Seq<u8>) -> Option<nat>;

/// What `zip::ZipArchive::by_index` gives for entry `index` of a zip
/// archive: the entry's name, or `None` when the entry cannot be opened.
pub uninterp spec fn zip_entry_name(archive: Seq<u8>, index: int) -> Option<Seq<char>>;

/// What reading entry `index` of a zip archive to its end gives: its bytes,
/// or `None` when the entry cannot be opened or read.
pub uninterp spec fn zip_entry_bytes(archive: Seq<u8>, index: int) -> Option<Seq<u8>>;

/// What iterating the entries of a gzip-compressed tar archive yields, in
/// order: each entry's path and its bytes, or `None` for an entry whose
/// header, path or data cannot be read.
pub uninterp spec fn tar_gz_entries(archive: Seq<u8>) -> Seq<Option<(Seq<char>, Seq<u8>)>>;

/// The number of entries of a zip archive.
///
/// Trusted: `zip::ZipArchive::new` on the bytes, then `len`; the result is
/// named `zip_entry_count`.
#[verifier::external_body]
fn read_zip_count(archive: &[u8]) -> (r: Option<usize>)
    ensures
        match r {
            Some(n) => zip_entry_count(archive@) == Some(n as nat),
            None => zip_entry_count(archive@) is None,
        },
{
    zip::ZipArchive::new(std::io::Cursor::new(archive)).ok().map(|a| a.len())
}

/// The name of entry `index` of a zip archive.
///
/// Trusted: `zip::ZipArchive::by_index`, then the entry's `name`; the
/// result is named `zip_entry_name`.  The entry's data is not read.
#[verifier::external_body]
fn read_zip_name(archive: &[u8], index: usize) -> (r: Option<String>)
    ensures
        match r {
            Some(n) => zip_entry_name(archive@, index as int) == Some(n@),
            None => zip_entry_name(archive@, index as int) is None,
        },
{
    let mut zip = zip::ZipArchive::new(std::io::Cursor::new(archive)).ok()?;
    let entry = zip.by_index(index).ok()?;
    Some(entry.name().to_owned())
}

/// The bytes of entry `index` of a zip archive.
///
/// Trusted: `zip::ZipArchive::by_index`, then the entry read to its end;
/// the result is named `zip_entry_bytes`.
#[verifier::external_body]
fn read_zip_bytes(archive: &[u8], index: usize) -> (r: Option<Vec<u8>>)
    ensures
        match r {
            Some(b) => zip_entry_bytes(archive@, index as int) == Some(b@),
            None => zip_entry_bytes(archive@, index as int) is None,
        },
{
    let mut zip = zip::ZipArchive::new(std::io::Cursor::new(archive)).ok()?;
    let mut entry = zip.by_index(index).ok()?;
    let mut bytes = Vec::new();
    std::io::Read::read_to_end(&mut entry, &mut bytes).ok()?;
    Some(bytes)
}

/// Entry `index` of a gzip-compressed tar archive: `None` past the last
/// entry, `Some(None)` for an entry that cannot be read, else its path and
/// bytes.
///
/// Trusted: `tar::Archive::entries` over a `flate2` gzip decoder, `nth`,
/// then the entry's `path` (lossily as text) and the entry read to its end;
/// the entries are named `tar_gz_entries`.  `entries` only fails on an
/// archive that was read before, which a fresh one never is; the iterator
/// ends after an entry whose header it could not read.
#[verifier::external_body]
fn read_tar_gz_entry(archive: &[u8], index: usize) -> (r: Option<Option<(String, Vec<u8>)>>)
    ensures
        index < tar_gz_entries(archive@).len() ==> match tar_gz_entries(archive@)[index as int] {
            Some((n, b)) => r matches Some(Some((n2, b2))) && n2@ == n && b2@ == b,
            None => r matches Some(None),
        },
        index >= tar_gz_entries(archive@).len() ==> r is None,
{
    let mut tar = tar::Archive::new(flate2::read::GzDecoder::new(archive));
    let mut entries = tar.entries().ok()?;
    let mut e = match entries.nth(index)? { Ok(e) => e, Err(_) => return Some(None) };
    let name = match e.path() { Ok(p) => p.to_string_lossy().into_owned(), Err(_) => return Some(None) };
    let mut bytes = Vec::new();
    match std::io::Read::read_to_end(&mut e, &mut bytes) { Ok(_) => Some(Some((name, bytes))), Err(_) => Some(None) }
}

/// An entry name as a path: on Windows, where `Path` also splits on `\`,
/// each `\` is read as `/`.
pub open spec fn entry_path(name: Seq<char>, windows: bool) -> Seq<char> {
    if windows {
        spec_replace_char(name, '\\', '/')
    } else {
        name
    }
}

/// The executable among the entries of a tar archive from `i` on: the
/// first entry that is the `jav` executable, with its file name and bytes;
/// an unreadable entry before it stops the search.  Entries past the
/// largest index a `usize` holds are not read.
pub open spec fn executable_from(es: Seq<Option<(Seq<char>, Seq<u8>)>>, i: int, windows: bool) -> Result<
    (Seq<char>, Seq<u8>),
    UpgradeErrorView,
>
    decreases es.len() - i,
{
    if i < 0 || i >= es.len() {
        Err(UpgradeErrorView::MissingExecutable)
    } else {
        match es[i] {
            None => Err(UpgradeErrorView::UnreadableArchiveEntry),
            Some((name, bytes)) => if spec_is_executable_entry(entry_path(name, windows)) {
                Ok((spec_file_name(entry_path(name, windows)).unwrap(), bytes))
            } else if i + 1 > usize::MAX {
                Err(UpgradeErrorView::UnreadableArchiveEntry)
            } else {
                executable_from(es, i + 1, windows)
            },
        }
    }
}

/// The executable among the entries of a zip archive of `n` entries from
/// `i` on: the first entry whose name is the `jav` executable, with its
/// file name and bytes; an entry before it that cannot be opened, or its
/// own bytes that cannot be read, stop the search.  Only the executable's
/// bytes are read.
pub open spec fn zip_executable_from(archive: Seq<u8>, n: nat, i: int, windows: bool) -> Result<
    (Seq<char>, Seq<u8>),
    UpgradeErrorView,
>
    decreases n - i,
{
    if i < 0 || i >= n {
        Err(UpgradeErrorView::MissingExecutable)
    } else {
        match zip_entry_name(archive, i) {
            None => Err(UpgradeErrorView::UnreadableArchiveEntry),
            Some(name) => if spec_is_executable_entry(entry_path(name, windows)) {
                match zip_entry_bytes(archive, i) {
                    None => Err(UpgradeErrorView::UnreadableArchiveEntry),
                    Some(bytes) => Ok((spec_file_name(entry_path(name, windows)).unwrap(), bytes)),
                }
            } else {
                zip_executable_from(archive, n, i + 1, windows)
            },
        }
    }
}

/// The executable of a release asset named `asset_name`, as the file name
/// to write it under and its bytes: taken out of a zip or tar.gz archive,
/// else the asset itself.  `windows` tells whether entry names are read as
/// Windows paths.
pub open spec fn spec_executable(asset_name: Seq<char>, archive: Seq<u8>, windows: bool) -> Result<
    (Seq<char>, Seq<u8>),
    UpgradeErrorView,
> {
    match spec_archive_kind(asset_name) {
        ArchiveKind::Zip => match zip_entry_count(archive) {
            None => Err(UpgradeErrorView::InvalidZip),
            Some(n) => zip_executable_from(archive, n, 0, windows),
        },
        ArchiveKind::TarGz => executable_from(tar_gz_entries(archive), 0, windows),
        ArchiveKind::Plain => Ok((asset_name, archive)),
    }
}

/// An entry name as a path.
fn as_entry_path(name: String, windows: bool) -> (r: String)
    ensures
        r@ == entry_path(name@, windows),
{
    if windows {
        replace_char(name.as_str(), '\\', '/')
    } else {
        name
    }
}

/// A copy of some bytes.
fn copy_bytes(b: &[u8]) -> (r: Vec<u8>)
    ensures
        r@ == b@,
{
    let mut r: Vec<u8> = Vec::new();
    let mut i: usize = 0;
    while i < b.len()
        invariant
            i <= b@.len(),
            r@ == b@.take(i as int),
        decreases b@.len() - i,
    {
        r.push(b[i]);
        assert(b@.take(i + 1) =~= b@.take(i as int).push(b@[i as int]));
        i = i + 1;
    }
    assert(b@.take(b@.len() as int) =~= b@);
    r
}

/// Takes the `jav` executable out of the downloaded asset `asset_name`: the
/// first entry of a zip or tar.gz archive whose file name is `jav` or
/// `jav.exe` (in any case), or the asset itself when it is no archive.
/// Entry names are read as Windows paths when `windows` holds.  The result
/// is the file name to write it under and its bytes.
pub fn executable_from_asset(asset_name: &str, archive: &[u8], windows: bool) -> (r: Result<
    (String, Vec<u8>),
    UpgradeError,
>)
    ensures
        match r {
            Ok((n, b)) => spec_executable(asset_name@, archive@, windows) == Ok::<
                (Seq<char>, Seq<u8>),
                UpgradeErrorView,
            >((n@, b@)),
            Err(e) => spec_executable(asset_name@, archive@, windows) == Err::<
                (Seq<char>, Seq<u8>),
                UpgradeErrorView,
            >(e@),
        },
{
    match archive_kind(asset_name) {
        ArchiveKind::Zip => {
            let n = match read_zip_count(archive) {
                Some(n) => n,
                None => return Err(UpgradeError::InvalidZip),
            };
            let mut i: usize = 0;
            while i < n
                invariant
                    spec_archive_kind(asset_name@) == ArchiveKind::Zip,
                    zip_entry_count(archive@) == Some(n as nat),
                    i <= n,
                    zip_executable_from(archive@, n as nat, 0, windows) == zip_executable_from(
                        archive@,
                        n as nat,
                        i as int,
                        windows,
                    ),
                decreases n - i,
            {
                let name = match read_zip_name(archive, i) {
                    Some(name) => as_entry_path(name, windows),
                    None => return Err(UpgradeError::UnreadableArchiveEntry),
                };
                if is_executable_entry(name.as_str()) {
                    let bytes = match read_zip_bytes(archive, i) {
                        Some(b) => b,
                        None => return Err(UpgradeError::UnreadableArchiveEntry),
                    };
                    match file_name(name.as_str()) {
                        Some(f) => return Ok((f, bytes)),
                        None => return Err(UpgradeError::MissingExecutable),
                    }
                }
                i = i + 1;
            }
            Err(UpgradeError::MissingExecutable)
        },
        ArchiveKind::TarGz => {
            let ghost es = tar_gz_entries(archive@);
            let mut i: usize = 0;
            loop
                invariant
                    spec_archive_kind(asset_name@) == ArchiveKind::TarGz,
                    es == tar_gz_entries(archive@),
                    i <= es.len(),
                    executable_from(es, 0, windows) == executable_from(es, i as int, windows),
                decreases es.len() - i,
            {
                match read_tar_gz_entry(archive, i) {
                    None => return Err(UpgradeError::MissingExecutable),
                    Some(None) => return Err(UpgradeError::UnreadableArchiveEntry),
                    Some(Some((name, bytes))) => {
                        let path = as_entry_path(name, windows);
                        if is_executable_entry(path.as_str()) {
                            match file_name(path.as_str()) {
                                Some(f) => return Ok((f, bytes)),
                                None => return Err(UpgradeError::MissingExecutable),
                            }
                        }
                        if i == usize::MAX {
                            return Err(UpgradeError::UnreadableArchiveEntry);
                        }
                    },
                }
                i = i + 1;
            }
        },
        ArchiveKind::Plain => Ok((owned(asset_name), copy_bytes(archive))),
    }
}

// ---------------------------------------------------------------------------
// Reporting
// ---------------------------------------------------------------------------

/// The decimal digits of a number.
pub open spec fn spec_decimal(n: nat) -> Seq<char>
    decreases n,
{
    if n < 10 {
        seq![hex_digit(n as u8)]
    } else {
        spec_decimal(n / 10).push(hex_digit((n % 10) as u8))
    }
}

/// The decimal digits of a number.
pub fn decimal(n: u32) -> (r: String)
    ensures
        r@ == spec_decimal(n as nat),
    decreases n,
{
    if n < 10 {
        let mut r = String::new();
        push_char(&mut r, hex_digit_exec(n as u8));
        assert(r@ =~= seq![hex_digit(n as u8)]);
        r
    } else {
        let mut r = decimal(n / 10);
        push_char(&mut r, hex_digit_exec((n % 10) as u8));
        r
    }
}

/// The script that replaces a running Windows executable once it exits.
pub open spec fn spec_windows_script(
    replacement: Seq<char>,
    current: Seq<char>,
    backup: Seq<char>,
    pid: u32,
) -> Seq<char> {
    "@echo off\r\nsetlocal\r\nset \"NEW="@ + replacement + "\"\r\nset \"TARGET="@ + current
        + "\"\r\nset \"BACKUP="@ + backup + "\"\r\nset \"PID="@ + spec_decimal(pid as nat)
        + WINDOWS_SCRIPT_TAIL@
}

/// The part of the replacement script after the process id.
pub const WINDOWS_SCRIPT_TAIL: &'static str = "\"\r\n:wait\r\ntasklist /FI \"PID eq %PID%\" 2>nul | find \"%PID%\" >nul\r\nif not errorlevel 1 (\r\n  timeout /t 1 /nobreak >nul\r\n  goto wait\r\n)\r\nif not exist \"%NEW%\" exit /b 1\r\nif exist \"%BACKUP%\" del /f /q \"%BACKUP%\" >nul 2>nul\r\nif exist \"%TARGET%\" move /Y \"%TARGET%\" \"%BACKUP%\" >nul\r\ncopy /Y \"%NEW%\" \"%TARGET%\" >nul\r\nif errorlevel 1 (\r\n  if exist \"%BACKUP%\" move /Y \"%BACKUP%\" \"%TARGET%\" >nul\r\n  exit /b 1\r\n)\r\ndel /f /q \"%NEW%\" >nul 2>nul\r\ndel /f /q \"%BACKUP%\" >nul 2>nul\r\ndel /f /q \"%~f0\" >nul 2>nul\r\n";

/// The Windows script that waits for process `pid` to exit, moves the
/// current executable to `backup`, copies `replacement` in its place, puts
/// the backup back if that fails, and cleans up.
pub fn windows_replacement_script(
    replacement: &str,
    current: &str,
    backup: &str,
    pid: u32,
) -> (r: String)
    ensures
        r@ == spec_windows_script(replacement@, current@, backup@, pid),
{
    let mut r = owned("@echo off\r\nsetlocal\r\nset \"NEW=");
    r.append(replacement);
    r.append("\"\r\nset \"TARGET=");
    r.append(current);
    r.append("\"\r\nset \"BACKUP=");
    r.append(backup);
    r.append("\"\r\nset \"PID=");
    let digits = decimal(pid);
    r.append(digits.as_str());
    r.append(WINDOWS_SCRIPT_TAIL);
    r
}

/// The first line of a release summary.
pub open spec fn summary_head(m: ReleaseManifest) -> Seq<char> {
    "latest version "@ + m.version@ + "+"@ + m.commit@
}

/// The line of a release summary for one asset.
pub open spec fn summary_asset_line(a: ReleaseAsset) -> Seq<char> {
    a.rid@ + " "@ + a.file_name@ + " "@ + a.sha256@
}

/// The lines that describe a release: the version and commit, then each
/// asset with its runtime identifier, file name and SHA-256.
pub fn release_summary(manifest: &ReleaseManifest) -> (r: Vec<String>)
    ensures
        views(r@) == seq![summary_head(*manifest)] + manifest.assets@.map_values(
            |a: ReleaseAsset| summary_asset_line(a),
        ),
{
    let mut head = owned("latest version ");
    head.append(manifest.version.as_str());
    head.append("+");
    head.append(manifest.commit.as_str());
    let mut lines: Vec<String> = Vec::new();
    lines.push(head);
    let ghost target = seq![summary_head(*manifest)] + manifest.assets@.map_values(
        |a: ReleaseAsset| summary_asset_line(a),
    );
    let mut i: usize = 0;
    while i < manifest.assets.len()
        invariant
            i <= manifest.assets@.len(),
            target == seq![summary_head(*manifest)] + manifest.assets@.map_values(
                |a: ReleaseAsset| summary_asset_line(a),
            ),
            views(lines@) == target.take(i + 1),
        decreases manifest.assets@.len() - i,
    {
        let a = &manifest.assets[i];
        let mut line = a.rid.clone();
        line.append(" ");
        line.append(a.file_name.as_str());
        line.append(" ");
        line.append(a.sha256.as_str());
        let ghost before = lines@;
        lines.push(line);
        assert(views(lines@) =~= views(before).push(target[i + 1]));
        assert(target.take(i + 2) =~= target.take(i + 1).push(target[i + 1]));
        i = i + 1;
    }
    assert(target.take(manifest.assets@.len() + 1 as int) =~= target);
    lines
}

/// The version of this build of `jav`.
pub const VERSION: &'static str = "0.1.0";

/// The version of this build of `jav`.
pub fn current_version() -> (r: &'static str)
    ensures
        r@ == VERSION@,
{
    VERSION
}

} // verus!
