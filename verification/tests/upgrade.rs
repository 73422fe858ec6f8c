use std::io::Write;
use jav::commands::upgrade::{check_hash, choose_rid, select_asset, upgraded_label};
use jav::upgrade::{
    archive_kind, current_version, decimal, detect_rid, ensure_supported_host, executable_from_asset,
    file_name,
    first_release, is_executable_entry, manifest_asset_url, release_summary, releases_url,
    sha256_hex, to_hex, windows_replacement_script, ArchiveKind, GitHubRelease,
    GitHubReleaseAsset, ReleaseAsset, ReleaseManifest, UpdateOptions, UpgradeError,
};

fn asset(rid: &str, url: &str) -> ReleaseAsset {
    ReleaseAsset {
        rid: rid.to_string(),
        file_name: format!("jav-{rid}.zip"),
        sha256: "AB12".to_string(),
        url: url.to_string(),
    }
}

fn manifest() -> ReleaseManifest {
    ReleaseManifest {
        version: "1.2.3".to_string(),
        commit: "abc1234".to_string(),
        assets: vec![asset("linux-x64", "https://x/linux"), asset("WIN-X64", "  "), asset("win-x64", "https://x/win")],
    }
}

#[test]
fn options_default_and_parse_prerelease() {
    let o = UpdateOptions::from_env_values(None, None, None, None);
    assert_eq!(o.owner, "sachahjkl");
    assert_eq!(o.repository, "jav");
    assert!(!o.include_prerelease);
    assert_eq!(o.asset_name, "release.json");
    for yes in ["1", "true", "TRUE", "yes", "YES"] {
        assert!(UpdateOptions::from_env_values(None, None, Some(yes.to_string()), None).include_prerelease);
    }
    for no in ["0", "True", "y", ""] {
        assert!(!UpdateOptions::from_env_values(None, None, Some(no.to_string()), None).include_prerelease);
    }
    let o = UpdateOptions::from_env_values(Some("me".into()), Some("fork".into()), None, Some("r.json".into()));
    assert_eq!((o.owner.as_str(), o.repository.as_str(), o.asset_name.as_str()), ("me", "fork", "r.json"));
}

#[test]
fn release_urls() {
    let mut o = UpdateOptions::from_env_values(None, None, None, None);
    assert_eq!(releases_url(&o), "https://api.github.com/repos/sachahjkl/jav/releases/latest");
    o.include_prerelease = true;
    assert_eq!(releases_url(&o), "https://api.github.com/repos/sachahjkl/jav/releases");
}

#[test]
fn runtime_identifiers() {
    assert_eq!(detect_rid("linux", "x86_64").unwrap(), "linux-x64");
    assert_eq!(detect_rid("windows", "x86_64").unwrap(), "win-x64");
    let e = detect_rid("macos", "aarch64").unwrap_err();
    assert_eq!(e.message(), "automatic upgrade is unsupported on macos-aarch64");
    assert_eq!(choose_rid(Some("osx-arm64".into()), "macos", "aarch64").unwrap(), "osx-arm64");
    assert_eq!(choose_rid(None, "linux", "x86_64").unwrap(), "linux-x64");
    assert!(choose_rid(None, "linux", "arm").is_err());
}

#[test]
fn nix_installs_cannot_upgrade() {
    assert!(ensure_supported_host("/usr/local/bin/jav").is_ok());
    let e = ensure_supported_host("/nix/store/abc-jav/bin/jav").unwrap_err();
    assert!(matches!(e, UpgradeError::NixManaged));
    assert!(ensure_supported_host("C:\\nix\\store\\jav.exe").is_err());
}

#[test]
fn releases_and_manifest_assets() {
    assert!(matches!(first_release(Vec::new()), Err(UpgradeError::NoReleases)));
    let release = GitHubRelease {
        assets: vec![
            GitHubReleaseAsset { name: "jav.zip".into(), browser_download_url: "u1".into() },
            GitHubReleaseAsset { name: "release.json".into(), browser_download_url: "u2".into() },
            GitHubReleaseAsset { name: "release.json".into(), browser_download_url: "u3".into() },
        ],
    };
    assert_eq!(manifest_asset_url(&release, "release.json").unwrap(), "u2");
    assert_eq!(
        manifest_asset_url(&release, "missing.json").unwrap_err().message(),
        "release asset not found: missing.json"
    );
    let first = first_release(vec![release.clone(), GitHubRelease { assets: Vec::new() }]).unwrap();
    assert_eq!(first.assets.len(), 3);
}

#[test]
fn sha256_digests_are_lower_case_hex() {
    assert_eq!(
        sha256_hex(b"abc"),
        "ba7816bf8f01cfea414140de5dae2223b00361a396177a9cb410ff61f20015ad"
    );
    assert_eq!(
        sha256_hex(b""),
        "e3b0c44298fc1c149afbf4c8996fb92427ae41e4649b934ca495991b7852b855"
    );
    assert_eq!(to_hex(&[0x00, 0x0f, 0xa0, 0xff]), "000fa0ff");
}

#[test]
fn assets_are_chosen_by_rid_ignoring_case() {
    let m = manifest();
    assert_eq!(select_asset(&m, "LINUX-x64").unwrap().url, "https://x/linux");
    assert!(matches!(select_asset(&m, "win-x64"), Err(UpgradeError::MissingAssetUrl)));
    let e = select_asset(&m, "osx-arm64").unwrap_err();
    assert_eq!(e.message(), "no release asset found for rid osx-arm64");
}

#[test]
fn downloads_are_checked_against_the_published_hash() {
    let a = asset("linux-x64", "u");
    assert!(check_hash(&a, "ab12").is_ok());
    let e = check_hash(&a, "ab13").unwrap_err();
    assert_eq!(e.message(), "invalid SHA256 for jav-linux-x64.zip: expected AB12, got ab13");
}

#[test]
fn archives_are_recognised_by_name() {
    assert_eq!(archive_kind("jav-win-x64.zip"), ArchiveKind::Zip);
    assert_eq!(archive_kind("jav-linux-x64.tar.gz"), ArchiveKind::TarGz);
    assert_eq!(archive_kind("jav.tgz"), ArchiveKind::TarGz);
    assert_eq!(archive_kind("jav"), ArchiveKind::Plain);
}

#[test]
fn executable_entries() {
    assert_eq!(file_name("dist/bin/jav"), Some("jav".to_string()));
    assert_eq!(file_name("dist/bin/"), Some("bin".to_string()));
    assert_eq!(file_name("dist/./jav.exe/."), Some("jav.exe".to_string()));
    assert_eq!(file_name("dist/.."), None);
    assert_eq!(file_name("/"), None);
    assert!(is_executable_entry("dist/JAV.EXE"));
    assert!(is_executable_entry("jav"));
    assert!(!is_executable_entry("dist/JAV"));
    assert!(!is_executable_entry("dist/jav.txt"));
}

#[test]
fn summaries_and_scripts() {
    let m = manifest();
    let lines = release_summary(&m);
    assert_eq!(lines[0], "latest version 1.2.3+abc1234");
    assert_eq!(lines[1], "linux-x64 jav-linux-x64.zip AB12");
    assert_eq!(lines.len(), 4);
    assert_eq!(upgraded_label(&m), "1.2.3+abc1234");
    assert_eq!(decimal(0), "0");
    assert_eq!(decimal(4096), "4096");
    assert_eq!(decimal(u32::MAX), "4294967295");
    let script = windows_replacement_script("C:\\t\\new.exe", "C:\\jav.exe", "C:\\jav.exe.bak", 42);
    assert!(script.starts_with("@echo off\r\nsetlocal\r\nset \"NEW=C:\\t\\new.exe\"\r\nset \"TARGET=C:\\jav.exe\"\r\nset \"BACKUP=C:\\jav.exe.bak\"\r\nset \"PID=42\"\r\n:wait\r\n"));
    assert!(script.ends_with("del /f /q \"%~f0\" >nul 2>nul\r\n"));
    assert_eq!(current_version(), "0.1.0");
}

fn zip_of(entries: &[(&str, &[u8])]) -> Vec<u8> {
    let mut writer = zip::ZipWriter::new(std::io::Cursor::new(Vec::new()));
    for (name, bytes) in entries {
        writer.start_file(*name, zip::write::SimpleFileOptions::default()).unwrap();
        writer.write_all(bytes).unwrap();
    }
    writer.finish().unwrap().into_inner()
}

fn tar_gz_of(entries: &[(&str, &[u8])]) -> Vec<u8> {
    let encoder = flate2::write::GzEncoder::new(Vec::new(), flate2::Compression::default());
    let mut builder = tar::Builder::new(encoder);
    for (name, bytes) in entries {
        let mut header = tar::Header::new_gnu();
        header.set_size(bytes.len() as u64);
        header.set_mode(0o755);
        header.set_cksum();
        builder.append_data(&mut header, name, *bytes).unwrap();
    }
    builder.into_inner().unwrap().finish().unwrap()
}

#[test]
fn executable_comes_out_of_a_zip() {
    let archive = zip_of(&[("dist/README.md", b"readme"), ("dist/JAV.EXE", b"binary")]);
    let (name, bytes) = executable_from_asset("jav-win-x64.zip", &archive, false).unwrap();
    assert_eq!(name, "JAV.EXE");
    assert_eq!(bytes, b"binary".to_vec());
    let none = zip_of(&[("dist/README.md", b"readme")]);
    let e = executable_from_asset("jav-win-x64.zip", &none, false).unwrap_err();
    assert_eq!(e.message(), "archive is missing jav executable");
    let e = executable_from_asset("jav-win-x64.zip", b"not a zip", false).unwrap_err();
    assert_eq!(e.message(), "invalid zip release asset");
}

#[test]
fn executable_comes_out_of_a_tar_gz() {
    let archive = tar_gz_of(&[("jav-linux/LICENSE", b"license"), ("jav-linux/jav", b"elf")]);
    let (name, bytes) = executable_from_asset("jav-linux-x64.tar.gz", &archive, false).unwrap();
    assert_eq!(name, "jav");
    assert_eq!(bytes, b"elf".to_vec());
    let none = tar_gz_of(&[("jav-linux/LICENSE", b"license")]);
    let e = executable_from_asset("jav.tgz", &none, false).unwrap_err();
    assert!(matches!(e, UpgradeError::MissingExecutable));
    let e = executable_from_asset("jav.tgz", b"not gzip", false).unwrap_err();
    assert_eq!(e.message(), "failed to read the release archive");
}

#[test]
fn a_plain_asset_is_the_executable() {
    let (name, bytes) = executable_from_asset("jav-linux-x64", b"elf", false).unwrap();
    assert_eq!((name.as_str(), bytes), ("jav-linux-x64", b"elf".to_vec()));
}

#[test]
fn windows_entry_names_split_on_backslashes() {
    let archive = zip_of(&[("dist\\README.md", b"readme"), ("dist\\jav.exe", b"binary")]);
    let (name, bytes) = executable_from_asset("jav-win-x64.zip", &archive, true).unwrap();
    assert_eq!((name.as_str(), bytes), ("jav.exe", b"binary".to_vec()));
    let e = executable_from_asset("jav-win-x64.zip", &archive, false).unwrap_err();
    assert!(matches!(e, UpgradeError::MissingExecutable));
}
