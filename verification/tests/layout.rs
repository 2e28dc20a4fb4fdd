use sqls_provisioner::cleanup::stale_entries;
use sqls_provisioner::error::{ErrorKind, ProvisionError};
use sqls_provisioner::layout::{asset_name, binary_path, entry_path, tool_root, version_dir};
use sqls_provisioner::platform::PlatformKey;
use sqls_provisioner::release::{Asset, ReleaseInfo};

fn asset(name: &str, url: &str) -> Asset {
    Asset { name: name.to_string(), download_url: url.to_string() }
}

fn texts(items: &[&str]) -> Vec<String> {
    items.iter().map(|s| s.to_string()).collect()
}

#[test]
fn asset_name_for_linux_strips_leading_v() {
    assert_eq!(asset_name(PlatformKey::Linux, "v2.0.0"), "sqls-linux-2.0.0.zip");
}

#[test]
fn asset_name_for_mac_uses_darwin() {
    assert_eq!(asset_name(PlatformKey::Mac, "v0.2.28"), "sqls-darwin-0.2.28.zip");
}

#[test]
fn asset_name_for_windows() {
    assert_eq!(asset_name(PlatformKey::Windows, "v1.2.3"), "sqls-windows-1.2.3.zip");
}

#[test]
fn asset_name_strips_whatever_stands_first() {
    assert_eq!(asset_name(PlatformKey::Linux, "2.0.0"), "sqls-linux-.0.0.zip");
    assert_eq!(asset_name(PlatformKey::Linux, "v"), "sqls-linux-.zip");
}

#[test]
fn asset_name_strips_one_character_not_one_byte() {
    assert_eq!(asset_name(PlatformKey::Linux, "\u{e9}1.0"), "sqls-linux-1.0.zip");
}

#[test]
fn archive_tags() {
    assert_eq!(PlatformKey::Mac.archive_tag(), "darwin");
    assert_eq!(PlatformKey::Linux.archive_tag(), "linux");
    assert_eq!(PlatformKey::Windows.archive_tag(), "windows");
}

#[test]
fn exe_suffix_only_on_windows() {
    assert_eq!(PlatformKey::Windows.exe_suffix(), ".exe");
    assert_eq!(PlatformKey::Linux.exe_suffix(), "");
    assert_eq!(PlatformKey::Mac.exe_suffix(), "");
    assert!(PlatformKey::Windows.is_windows());
    assert!(!PlatformKey::Linux.is_windows());
    assert!(!PlatformKey::Mac.is_windows());
}

#[test]
fn directories_end_in_a_slash() {
    assert_eq!(tool_root("sqls"), "sqls/");
    assert_eq!(version_dir("sqls", "v2.0.0"), "sqls/v2.0.0/");
    assert_eq!(entry_path("sqls", "v1.0.0"), "sqls/v1.0.0");
}

#[test]
fn windows_binary_path_ends_with_exe() {
    let path = binary_path("sqls", "v2.0.0", PlatformKey::Windows);
    assert_eq!(path, "sqls/v2.0.0/sqls.exe");
    assert!(path.ends_with(".exe"));
}

#[test]
fn other_binary_paths_have_no_exe() {
    let linux = binary_path("sqls", "v2.0.0", PlatformKey::Linux);
    let mac = binary_path("sqls", "v2.0.0", PlatformKey::Mac);
    assert_eq!(linux, "sqls/v2.0.0/sqls");
    assert_eq!(mac, "sqls/v2.0.0/sqls");
    assert!(!linux.ends_with(".exe"));
    assert!(!mac.ends_with(".exe"));
}

#[test]
fn find_asset_gives_the_first_match() {
    let release = ReleaseInfo::new(
        "v2.0.0".to_string(),
        vec![
            asset("sqls-darwin-2.0.0.zip", "https://example.test/d"),
            asset("sqls-linux-2.0.0.zip", "https://example.test/l1"),
            asset("sqls-linux-2.0.0.zip", "https://example.test/l2"),
        ],
    );
    assert_eq!(release.find_asset("sqls-linux-2.0.0.zip"), Some(1));
    assert_eq!(release.find_asset("sqls-darwin-2.0.0.zip"), Some(0));
    assert_eq!(release.find_asset("sqls-windows-2.0.0.zip"), None);
    assert_eq!(release.find_asset("sqls-linux-2.0.0"), None);
}

#[test]
fn archive_url_follows_platform_and_version() {
    let release = ReleaseInfo::new(
        "v2.0.0".to_string(),
        vec![
            asset("sqls-linux-1.0.0.zip", "https://example.test/old"),
            asset("sqls-darwin-2.0.0.zip", "https://example.test/d"),
            asset("sqls-linux-2.0.0.zip", "https://example.test/l"),
        ],
    );
    assert!(release.is_wf());
    assert_eq!(release.archive_url(PlatformKey::Linux), Some("https://example.test/l".to_string()));
    assert_eq!(release.archive_url(PlatformKey::Mac), Some("https://example.test/d".to_string()));
    assert_eq!(release.archive_url(PlatformKey::Windows), None);
}

#[test]
fn release_without_assets_has_no_archive() {
    let release = ReleaseInfo::new("v2.0.0".to_string(), Vec::new());
    assert_eq!(release.find_asset("sqls-linux-2.0.0.zip"), None);
    assert_eq!(release.archive_url(PlatformKey::Linux), None);
}

#[test]
fn release_with_empty_tag_has_no_archive() {
    let release = ReleaseInfo::new(
        String::new(),
        vec![asset("sqls-linux-.zip", "https://example.test/l")],
    );
    assert_eq!(release.archive_url(PlatformKey::Linux), None);
    let tagged = ReleaseInfo::new(
        "v".to_string(),
        vec![asset("sqls-linux-.zip", "https://example.test/l")],
    );
    assert_eq!(tagged.archive_url(PlatformKey::Linux), Some("https://example.test/l".to_string()));
}

#[test]
fn empty_tag_is_not_well_formed() {
    assert!(!ReleaseInfo::new(String::new(), Vec::new()).is_wf());
    assert!(ReleaseInfo::new("v".to_string(), Vec::new()).is_wf());
}

#[test]
fn stale_entries_are_all_but_the_version() {
    let names = texts(&["v1.0.0", "v2.0.0", "tmp", "v1.5.0"]);
    assert_eq!(stale_entries(&names, "v2.0.0"), texts(&["v1.0.0", "tmp", "v1.5.0"]));
}

#[test]
fn stale_entries_of_a_clean_root_are_none() {
    assert_eq!(stale_entries(&texts(&["v2.0.0"]), "v2.0.0"), Vec::<String>::new());
    assert_eq!(stale_entries(&Vec::new(), "v2.0.0"), Vec::<String>::new());
}

#[test]
fn stale_entries_keep_repeats_and_order() {
    let names = texts(&["b", "a", "v2.0.0", "b"]);
    assert_eq!(stale_entries(&names, "v2.0.0"), texts(&["b", "a", "b"]));
    assert_eq!(stale_entries(&names, "v3.0.0"), names);
}

#[test]
fn error_labels_and_description() {
    assert_eq!(ErrorKind::ReleaseLookup.label(), "release lookup failed");
    assert_eq!(ErrorKind::AssetNotFound.label(), "asset not found");
    assert_eq!(ErrorKind::Download.label(), "download failed");
    assert_eq!(ErrorKind::Permission.label(), "permission change failed");
    assert_eq!(ErrorKind::Cleanup.label(), "cleanup failed");
    assert_eq!(ErrorKind::Io.label(), "file system failure");
    let error = ProvisionError::new(ErrorKind::Download, "timed out".to_string());
    assert_eq!(error.kind, ErrorKind::Download);
    assert_eq!(error.message, "timed out");
    assert_eq!(error.describe(), "download failed: timed out");
}

#[test]
fn asset_not_found_has_its_message() {
    let error = ProvisionError::asset_not_found();
    assert_eq!(error.kind, ErrorKind::AssetNotFound);
    assert_eq!(error.message, "no asset found for platform");
}
