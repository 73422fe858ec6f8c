//! `jav upgrade`: choosing the release asset and checking the download.
use crate::text::{eq_ignore_ascii_case, is_blank, spec_eq_ignore_ascii_case, spec_is_blank};
use crate::upgrade::{
    current_version, detect_rid, ensure_supported_host, first_release, is_nix_managed,
    manifest_asset_url, release_summary, releases_url, sha256, sha256_hex, spec_hex,
    spec_releases_url, spec_rid, summary_asset_line, summary_head, GitHubRelease, ReleaseAsset,
    ReleaseManifest, UpdateOptions, UpgradeError, UpgradeErrorView, VERSION,
};
use crate::text::{owned, views};
use vstd::prelude::*;

verus! {

/// The runtime identifier to upgrade: the one asked for, else that of this
/// operating system and machine.
pub fn choose_rid(requested: Option<String>, os: &str, arch: &str) -> (r: Result<
    String,
    UpgradeError,
>)
    ensures
        match requested {
            Some(rid) => r matches Ok(s) && s@ == rid@,
            None => match spec_rid(os@, arch@) {
                Some(rid) => r matches Ok(s) && s@ == rid,
                None => r matches Err(e) && e@ == (UpgradeErrorView::UnsupportedPlatform {
                    os: os@,
                    arch: arch@,
                }),
            },
        },
{
    match requested {
        Some(rid) => Ok(rid),
        None => match detect_rid(os, arch) {
            Ok(rid) => Ok(owned(rid)),
            Err(e) => Err(e),
        },
    }
}

/// `i` is the first asset whose runtime identifier equals `rid` ignoring
/// ASCII case.
pub open spec fn first_rid_match(assets: Seq<ReleaseAsset>, rid: Seq<char>, i: int) -> bool {
    &&& 0 <= i < assets.len()
    &&& spec_eq_ignore_ascii_case(assets[i].rid@, rid)
    &&& forall|j: int| 0 <= j < i ==> !spec_eq_ignore_ascii_case((#[trigger] assets[j]).rid@, rid)
}

/// No asset has the runtime identifier `rid`, ignoring ASCII case.
pub open spec fn no_rid_match(assets: Seq<ReleaseAsset>, rid: Seq<char>) -> bool {
    forall|j: int| 0 <= j < assets.len() ==> !spec_eq_ignore_ascii_case((#[trigger] assets[j]).rid@, rid)
}

/// The asset of the manifest to download for `rid`: the first whose
/// runtime identifier equals `rid` ignoring ASCII case.  It must have a
/// download address.
pub fn select_asset(manifest: &ReleaseManifest, rid: &str) -> (r: Result<
    ReleaseAsset,
    UpgradeError,
>)
    ensures
        r matches Ok(a) ==> exists|i: int|
            first_rid_match(manifest.assets@, rid@, i) && #[trigger] manifest.assets@[i] == a
                && !spec_is_blank(a.url@),
        r matches Err(e) ==> (e@ == UpgradeErrorView::NoAssetForRid(rid@) && no_rid_match(
            manifest.assets@,
            rid@,
        )) || (e@ == UpgradeErrorView::MissingAssetUrl && exists|i: int|
            first_rid_match(manifest.assets@, rid@, i) && spec_is_blank(
                (#[trigger] manifest.assets@[i]).url@,
            )),
{
    let mut i: usize = 0;
    while i < manifest.assets.len()
        invariant
            i <= manifest.assets@.len(),
            forall|j: int|
                0 <= j < i ==> !spec_eq_ignore_ascii_case(
                    (#[trigger] manifest.assets@[j]).rid@,
                    rid@,
                ),
        decreases manifest.assets@.len() - i,
    {
        let a = &manifest.assets[i];
        if eq_ignore_ascii_case(a.rid.as_str(), rid) {
            if is_blank(a.url.as_str()) {
                assert(first_rid_match(manifest.assets@, rid@, i as int));
                return Err(UpgradeError::MissingAssetUrl);
            }
            assert(first_rid_match(manifest.assets@, rid@, i as int));
            return Ok(
                ReleaseAsset {
                    rid: a.rid.clone(),
                    file_name: a.file_name.clone(),
                    sha256: a.sha256.clone(),
                    url: a.url.clone(),
                },
            );
        }
        i = i + 1;
    }
    Err(UpgradeError::NoAssetForRid(owned(rid)))
}

/// Checks the SHA-256 of a download against the published one, ignoring
/// ASCII case.
pub fn check_hash(asset: &ReleaseAsset, actual: &str) -> (r: Result<(), UpgradeError>)
    ensures
        r is Ok <==> spec_eq_ignore_ascii_case(actual@, asset.sha256@),
        r matches Err(e) ==> e@ == (UpgradeErrorView::HashMismatch {
            file_name: asset.file_name@,
            expected: asset.sha256@,
            actual: actual@,
        }),
{
    if eq_ignore_ascii_case(actual, asset.sha256.as_str()) {
        Ok(())
    } else {
        Err(
            UpgradeError::HashMismatch {
                file_name: asset.file_name.clone(),
                expected: asset.sha256.clone(),
                actual: owned(actual),
            },
        )
    }
}

/// The version reported after an upgrade: `version+commit`.
pub fn upgraded_label(manifest: &ReleaseManifest) -> (r: String)
    ensures
        r@ == manifest.version@ + "+"@ + manifest.commit@,
{
    let mut r = manifest.version.clone();
    r.append("+");
    r.append(manifest.commit.as_str());
    r
}

// ---------------------------------------------------------------------------
// The upgrade, step by step
// ---------------------------------------------------------------------------

/// What `jav upgrade` is asked to do, and where it runs.
#[derive(Debug, Clone)]
pub struct UpgradeRequest {
    /// Only report the latest release.
    pub check: bool,
    /// The runtime identifier asked for, if any.
    pub rid: Option<String>,
    /// `std::env::consts::OS` of the running binary.
    pub os: String,
    /// `std::env::consts::ARCH` of the running binary.
    pub arch: String,
    /// The displayed path of the running executable.
    pub executable: String,
    /// Where releases come from.
    pub options: UpdateOptions,
}

/// Where an upgrade stands.
#[derive(Debug, Clone)]
pub enum UpgradeState {
    /// Waiting for the release (or list of releases) asked for.
    AwaitingReleases(UpgradeRequest),
    /// Waiting for the release manifest.
    AwaitingManifest(UpgradeRequest),
    /// Waiting for the bytes of the chosen asset.
    AwaitingDownload { label: String, asset: ReleaseAsset },
    /// Waiting for the executable to be replaced.
    AwaitingInstall { label: String },
    /// Nothing more to do.
    Finished,
}

/// What the caller reports back after doing an action.
#[derive(Debug, Clone)]
pub enum UpgradeEvent {
    /// The releases fetched: the list, or the latest release alone.
    Releases(Vec<GitHubRelease>),
    /// The release manifest fetched.
    Manifest(ReleaseManifest),
    /// The bytes of the downloaded asset.
    Downloaded(Vec<u8>),
    /// The executable was replaced.
    Installed,
}

/// What the caller is to do next.
#[derive(Debug, Clone)]
pub enum UpgradeAction {
    /// Fetch releases from `url`: a list of releases when `list`, else one.
    FetchReleases { url: String, list: bool },
    /// Fetch the release manifest from `url`.
    FetchManifest { url: String },
    /// Print these status lines, label and value; the upgrade is over.
    Report(Vec<(String, String)>),
    /// Download the asset at `url`, published as `file_name`.
    Download { url: String, file_name: String },
    /// Replace the running executable with the downloaded asset
    /// `file_name`; its bytes passed the hash check.
    Install { file_name: String },
    /// Report the upgrade to `label`; the upgrade is over.
    Finish { label: String },
    /// Stop with this error.
    Fail(UpgradeError),
}

/// The upgrade stops with the error `e`.
pub open spec fn fails_with(r: (UpgradeState, UpgradeAction), e: UpgradeErrorView) -> bool {
    &&& r.0 is Finished
    &&& r.1 matches UpgradeAction::Fail(x) && x@ == e
}

/// The upgrade stops with some error.
pub open spec fn fails(r: (UpgradeState, UpgradeAction)) -> bool {
    &&& r.0 is Finished
    &&& r.1 is Fail
}

/// The releases are fetched from the address the options give.
pub open spec fn fetches_releases(request: UpgradeRequest, r: (UpgradeState, UpgradeAction)) -> bool {
    &&& r.0 matches UpgradeState::AwaitingReleases(q) && q == request
    &&& r.1 matches UpgradeAction::FetchReleases { url, list } && url@ == spec_releases_url(
        request.options.owner@,
        request.options.repository@,
        request.options.include_prerelease,
    ) && list == request.options.include_prerelease
}

/// Starts an upgrade: a Nix-managed executable is refused, else the
/// releases are fetched.
pub fn start(request: UpgradeRequest) -> (r: (UpgradeState, UpgradeAction))
    ensures
        is_nix_managed(request.executable@) ==> fails_with(r, UpgradeErrorView::NixManaged),
        !is_nix_managed(request.executable@) ==> fetches_releases(request, r),
{
    match ensure_supported_host(request.executable.as_str()) {
        Err(e) => (UpgradeState::Finished, UpgradeAction::Fail(e)),
        Ok(()) => {
            let url = releases_url(&request.options);
            let list = request.options.include_prerelease;
            (UpgradeState::AwaitingReleases(request), UpgradeAction::FetchReleases { url, list })
        },
    }
}

/// The event a state waits for.
pub open spec fn awaits(state: UpgradeState, event: UpgradeEvent) -> bool {
    match state {
        UpgradeState::AwaitingReleases(_) => event is Releases,
        UpgradeState::AwaitingManifest(_) => event is Manifest,
        UpgradeState::AwaitingDownload { .. } => event is Downloaded,
        UpgradeState::AwaitingInstall { .. } => event is Installed,
        UpgradeState::Finished => false,
    }
}

/// Whether `state` waits for `event`: `step` takes no other.
pub fn waits_for(state: &UpgradeState, event: &UpgradeEvent) -> (r: bool)
    ensures
        r == awaits(*state, *event),
{
    match (state, event) {
        (UpgradeState::AwaitingReleases(_), UpgradeEvent::Releases(_)) => true,
        (UpgradeState::AwaitingManifest(_), UpgradeEvent::Manifest(_)) => true,
        (UpgradeState::AwaitingDownload { .. }, UpgradeEvent::Downloaded(_)) => true,
        (UpgradeState::AwaitingInstall { .. }, UpgradeEvent::Installed) => true,
        _ => false,
    }
}

/// The status lines of `jav upgrade --check`.
pub open spec fn check_report(m: ReleaseManifest) -> Seq<(Seq<char>, Seq<char>)> {
    seq![("current"@, VERSION@), ("release"@, summary_head(m))] + m.assets@.map_values(
        |a: ReleaseAsset| ("release"@, summary_asset_line(a)),
    )
}

/// The views of status lines.
pub open spec fn report_views(v: Seq<(String, String)>) -> Seq<(Seq<char>, Seq<char>)> {
    v.map_values(|p: (String, String)| (p.0@, p.1@))
}

/// Asset `i` is the first of `assets` named `name`.
pub open spec fn first_named(
    assets: Seq<crate::upgrade::GitHubReleaseAsset>,
    name: Seq<char>,
    i: int,
) -> bool {
    &&& 0 <= i < assets.len()
    &&& assets[i].name@ == name
    &&& forall|j: int| 0 <= j < i ==> (#[trigger] assets[j]).name@ != name
}

/// What follows the releases: the manifest asset of the first release is
/// fetched, or the upgrade stops.
pub open spec fn after_releases(
    q: UpgradeRequest,
    rs: Seq<GitHubRelease>,
    r: (UpgradeState, UpgradeAction),
) -> bool {
    if rs.len() == 0 {
        fails_with(r, UpgradeErrorView::NoReleases)
    } else {
        let assets = rs[0].assets@;
        let name = q.options.asset_name@;
        ||| exists|i: int|
            #![trigger assets[i]]
            first_named(assets, name, i) && r.0 == UpgradeState::AwaitingManifest(q) && (
            r.1 matches UpgradeAction::FetchManifest { url } && url@
                == assets[i].browser_download_url@)
        ||| (forall|j: int| 0 <= j < assets.len() ==> (#[trigger] assets[j]).name@ != name)
            && fails_with(r, UpgradeErrorView::AssetNotFound(name))
    }
}

/// The runtime identifier an upgrade is for: the one asked for, else that
/// of the operating system and machine, if it has one.
pub open spec fn spec_chosen_rid(q: UpgradeRequest) -> Option<Seq<char>> {
    match q.rid {
        Some(rid) => Some(rid@),
        None => spec_rid(q.os@, q.arch@),
    }
}

/// The download of asset `asset` of the manifest `m`.
pub open spec fn downloads(m: ReleaseManifest, asset: ReleaseAsset, r: (UpgradeState, UpgradeAction)) -> bool {
    &&& r.0 matches UpgradeState::AwaitingDownload { label, asset: a } && a == asset && label@
        == m.version@ + "+"@ + m.commit@
    &&& r.1 matches UpgradeAction::Download { url, file_name } && url == asset.url && file_name
        == asset.file_name
}

/// What follows the manifest: a report when checking; else, for the chosen
/// runtime identifier, the download of the first asset that has it
/// (ignoring ASCII case), or the error that stops the upgrade: no runtime
/// identifier for this platform, no asset for it, or no address for it.
pub open spec fn after_manifest(q: UpgradeRequest, m: ReleaseManifest, r: (UpgradeState, UpgradeAction)) -> bool {
    if q.check {
        &&& r.0 is Finished
        &&& r.1 matches UpgradeAction::Report(lines) && report_views(lines@) == check_report(m)
    } else {
        match spec_chosen_rid(q) {
            None => fails_with(r, UpgradeErrorView::UnsupportedPlatform { os: q.os@, arch: q.arch@ }),
            Some(rid) => if no_rid_match(m.assets@, rid) {
                fails_with(r, UpgradeErrorView::NoAssetForRid(rid))
            } else {
                exists|i: int|
                    #![trigger m.assets@[i]]
                    first_rid_match(m.assets@, rid, i) && if spec_is_blank(m.assets@[i].url@) {
                        fails_with(r, UpgradeErrorView::MissingAssetUrl)
                    } else {
                        downloads(m, m.assets@[i], r)
                    }
            },
        }
    }
}

/// What follows a download: the install when the bytes have the published
/// SHA-256, ignoring ASCII case, else a stop.
pub open spec fn after_download(
    label: String,
    asset: ReleaseAsset,
    bytes: Seq<u8>,
    r: (UpgradeState, UpgradeAction),
) -> bool {
    let actual = spec_hex(sha256(bytes));
    if spec_eq_ignore_ascii_case(actual, asset.sha256@) {
        &&& r.0 == (UpgradeState::AwaitingInstall { label })
        &&& r.1 matches UpgradeAction::Install { file_name } && file_name == asset.file_name
    } else {
        fails_with(
            r,
            UpgradeErrorView::HashMismatch {
                file_name: asset.file_name@,
                expected: asset.sha256@,
                actual,
            },
        )
    }
}

/// The outcome of one step.
pub open spec fn step_outcome(
    state: UpgradeState,
    event: UpgradeEvent,
    r: (UpgradeState, UpgradeAction),
) -> bool {
    match (state, event) {
        (UpgradeState::AwaitingReleases(q), UpgradeEvent::Releases(rs)) => after_releases(q, rs@, r),
        (UpgradeState::AwaitingManifest(q), UpgradeEvent::Manifest(m)) => after_manifest(q, m, r),
        (UpgradeState::AwaitingDownload { label, asset }, UpgradeEvent::Downloaded(bytes)) =>
            after_download(label, asset, bytes@, r),
        (UpgradeState::AwaitingInstall { label }, UpgradeEvent::Installed) => {
            &&& r.0 is Finished
            &&& r.1 matches UpgradeAction::Finish { label: l } && l == label
        },
        _ => false,
    }
}

/// The executable is replaced only with downloaded bytes that have the
/// published SHA-256.
pub open spec fn installs_only_verified(
    state: UpgradeState,
    event: UpgradeEvent,
    r: (UpgradeState, UpgradeAction),
) -> bool {
    r.1 is Install ==> {
        &&& state matches UpgradeState::AwaitingDownload { asset, .. }
        &&& event matches UpgradeEvent::Downloaded(bytes)
        &&& spec_eq_ignore_ascii_case(spec_hex(sha256(bytes@)), asset.sha256@)
    }
}

/// The `--check` report names the version of this build first, labelled
/// `current`, whatever the manifest says; then the latest release's version
/// and commit, then one line per asset.
pub proof fn lemma_check_report_lines(lines: Seq<(String, String)>, m: ReleaseManifest)
    requires
        report_views(lines) == check_report(m),
    ensures
        lines.len() == m.assets@.len() + 2,
        lines[0].0@ == "current"@,
        lines[0].1@ == VERSION@,
        lines[1].0@ == "release"@,
        lines[1].1@ == "latest version "@ + m.version@ + "+"@ + m.commit@,
        forall|i: int|
            0 <= i < m.assets@.len() ==> (#[trigger] lines[i + 2]).0@ == "release"@ && lines[i
                + 2].1@ == m.assets@[i].rid@ + " "@ + m.assets@[i].file_name@ + " "@
                + m.assets@[i].sha256@,
{
    assert(report_views(lines).len() == lines.len());
    assert(report_views(lines)[0] == (lines[0].0@, lines[0].1@));
    assert(report_views(lines)[1] == (lines[1].0@, lines[1].1@));
    assert forall|i: int| 0 <= i < m.assets@.len() implies (#[trigger] lines[i + 2]).0@
        == "release"@ && lines[i + 2].1@ == m.assets@[i].rid@ + " "@ + m.assets@[i].file_name@
        + " "@ + m.assets@[i].sha256@ by {
        assert(report_views(lines)[i + 2] == (lines[i + 2].0@, lines[i + 2].1@));
        assert(check_report(m)[i + 2] == ("release"@, summary_asset_line(m.assets@[i])));
    }
}

/// Takes the upgrade one step further on the event the state waits for.
/// The executable is only ever replaced after the downloaded bytes have the
/// published SHA-256, ignoring ASCII case.
pub fn step(state: UpgradeState, event: UpgradeEvent) -> (r: (UpgradeState, UpgradeAction))
    requires
        awaits(state, event),
    ensures
        step_outcome(state, event, r),
        installs_only_verified(state, event, r),
        (match (state, event) {
            (UpgradeState::AwaitingManifest(q), UpgradeEvent::Manifest(m)) => q.check ==> (
            r.1 matches UpgradeAction::Report(lines) && {
                &&& lines@.len() == m.assets@.len() + 2
                &&& lines@[0].0@ == "current"@
                &&& lines@[0].1@ == VERSION@
                &&& lines@[1].0@ == "release"@
                &&& lines@[1].1@ == "latest version "@ + m.version@ + "+"@ + m.commit@
            }),
            _ => true,
        }),
{
    match (state, event) {
        (UpgradeState::AwaitingReleases(q), UpgradeEvent::Releases(rs)) => {
            let release = match first_release(rs) {
                Ok(release) => release,
                Err(e) => return (UpgradeState::Finished, UpgradeAction::Fail(e)),
            };
            match manifest_asset_url(&release, q.options.asset_name.as_str()) {
                Ok(url) => (UpgradeState::AwaitingManifest(q), UpgradeAction::FetchManifest { url }),
                Err(e) => (UpgradeState::Finished, UpgradeAction::Fail(e)),
            }
        },
        (UpgradeState::AwaitingManifest(q), UpgradeEvent::Manifest(m)) => {
            if q.check {
                let mut lines: Vec<(String, String)> = Vec::new();
                lines.push((owned("current"), owned(current_version())));
                let summary = release_summary(&m);
                let mut i: usize = 0;
                while i < summary.len()
                    invariant
                        i <= summary@.len(),
                        views(summary@) == seq![summary_head(m)] + m.assets@.map_values(
                            |a: ReleaseAsset| summary_asset_line(a),
                        ),
                        report_views(lines@) == seq![("current"@, VERSION@)] + views(summary@).take(
                            i as int,
                        ).map_values(|l: Seq<char>| ("release"@, l)),
                    decreases summary@.len() - i,
                {
                    let ghost before = lines@;
                    lines.push((owned("release"), summary[i].clone()));
                    assert(report_views(lines@) =~= report_views(before).push(
                        ("release"@, summary@[i as int]@),
                    ));
                    assert(views(summary@).take(i + 1) =~= views(summary@).take(i as int).push(
                        summary@[i as int]@,
                    ));
                    assert(report_views(lines@) =~= seq![("current"@, VERSION@)] + views(
                        summary@,
                    ).take(i + 1).map_values(|l: Seq<char>| ("release"@, l)));
                    i = i + 1;
                }
                assert(views(summary@).take(summary@.len() as int) =~= views(summary@));
                assert(report_views(lines@) =~= check_report(m));
                proof {
                    lemma_check_report_lines(lines@, m);
                }
                return (UpgradeState::Finished, UpgradeAction::Report(lines));
            }
            let rid = match choose_rid(q.rid, q.os.as_str(), q.arch.as_str()) {
                Ok(rid) => rid,
                Err(e) => return (UpgradeState::Finished, UpgradeAction::Fail(e)),
            };
            let asset = match select_asset(&m, rid.as_str()) {
                Ok(asset) => asset,
                Err(e) => return (UpgradeState::Finished, UpgradeAction::Fail(e)),
            };
            let label = upgraded_label(&m);
            let url = asset.url.clone();
            let file_name = asset.file_name.clone();
            (UpgradeState::AwaitingDownload { label, asset }, UpgradeAction::Download { url, file_name })
        },
        (UpgradeState::AwaitingDownload { label, asset }, UpgradeEvent::Downloaded(bytes)) => {
            let hash = sha256_hex(bytes.as_slice());
            match check_hash(&asset, hash.as_str()) {
                Ok(()) => {
                    let file_name = asset.file_name.clone();
                    (UpgradeState::AwaitingInstall { label }, UpgradeAction::Install { file_name })
                },
                Err(e) => (UpgradeState::Finished, UpgradeAction::Fail(e)),
            }
        },
        (UpgradeState::AwaitingInstall { label }, UpgradeEvent::Installed) => {
            (UpgradeState::Finished, UpgradeAction::Finish { label })
        },
        _ => (UpgradeState::Finished, UpgradeAction::Fail(UpgradeError::NoReleases)),
    }
}

} // verus!
