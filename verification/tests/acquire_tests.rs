use kernel_relay::acquire::plan_download;
use kernel_relay::acquire::AcquireStage;
use kernel_relay::acquire::AssetInfo;
use kernel_relay::acquire::download_progress;
use kernel_relay::acquire::ReleaseInfo;
use kernel_relay::strutil::str_contains;
use kernel_relay::strutil::str_ends_with;
use kernel_relay::strutil::str_eq;
use kernel_relay::strutil::strip_leading_chars;
use kernel_relay::strutil::u64_to_dec;

fn asset(name: &str, url: &str) -> AssetInfo {
    AssetInfo { name: name.to_string(), url: url.to_string() }
}

fn release(tag: &str, assets: Vec<AssetInfo>) -> ReleaseInfo {
    ReleaseInfo { tag_name: tag.to_string(), assets }
}

#[test]
fn plan_picks_the_windows_zip_asset() {
    let r = release(
        "v1.10.0",
        vec![
            asset("sing-box-1.10.0-linux-amd64.tar.gz", "https://dl/linux"),
            asset("sing-box-1.10.0-windows-amd64.zip", "https://dl/win"),
            asset("sing-box-1.10.0-darwin-arm64.tar.gz", "https://dl/mac"),
        ],
    );
    let plan = plan_download(&r, "windows", "x86_64").unwrap();
    assert_eq!(plan.version, "1.10.0");
    assert_eq!(plan.asset_name, "sing-box-1.10.0-windows-amd64.zip");
    assert_eq!(plan.download_url, "https://dl/win");
}

#[test]
fn plan_picks_the_first_matching_asset() {
    let r = release(
        "v2.0.0",
        vec![
            asset("sing-box-2.0.0-windows-amd64.zip", "https://dl/first"),
            asset("sing-box-2.0.0-windows-amd64v3.zip", "https://dl/second"),
        ],
    );
    let plan = plan_download(&r, "windows", "amd64").unwrap();
    assert_eq!(plan.download_url, "https://dl/first");
}

#[test]
fn release_without_windows_asset_fails_descriptively() {
    let r = release(
        "v1.10.0",
        vec![
            asset("sing-box-1.10.0-linux-amd64.tar.gz", "https://dl/linux"),
            asset("sing-box-1.10.0-windows-amd64.msi", "https://dl/msi"),
        ],
    );
    let e = match plan_download(&r, "windows", "x86_64") {
        Err(e) => e,
        Ok(_) => panic!("a release without the zip asset must be refused"),
    };
    let msg = e.message();
    assert!(msg.contains("no matching asset"));
    assert!(msg.contains("sing-box-1.10.0-windows-amd64.zip"));
}

#[test]
fn empty_release_fails() {
    let r = release("v1.0.0", vec![]);
    assert!(plan_download(&r, "windows", "x86_64").is_err());
}

#[test]
fn stage_names_and_progress_values() {
    assert_eq!(AcquireStage::Checking.name(), "checking");
    assert_eq!(AcquireStage::Downloading.name(), "downloading");
    assert_eq!(AcquireStage::Extracting.name(), "extracting");
    assert_eq!(AcquireStage::Completed.name(), "completed");
    assert_eq!(AcquireStage::Checking.progress(), 0);
    assert_eq!(AcquireStage::Downloading.progress(), 20);
    assert_eq!(AcquireStage::Extracting.progress(), 80);
    assert_eq!(AcquireStage::Completed.progress(), 100);
}

#[test]
fn download_progress_spans_twenty_to_eighty() {
    assert_eq!(download_progress(0), 20);
    assert_eq!(download_progress(50), 50);
    assert_eq!(download_progress(100), 80);
    assert_eq!(download_progress(33), 39);
}

#[test]
fn decimal_rendering_is_exact() {
    assert_eq!(u64_to_dec(0), "0");
    assert_eq!(u64_to_dec(7), "7");
    assert_eq!(u64_to_dec(1000), "1000");
    assert_eq!(u64_to_dec(65535), "65535");
}

#[test]
fn substring_and_suffix_tests() {
    assert!(str_contains("sing-box-1.0-windows-amd64.zip", "windows-amd64"));
    assert!(!str_contains("sing-box-1.0-linux-amd64.zip", "windows-amd64"));
    assert!(str_contains("abc", ""));
    assert!(!str_contains("ab", "abc"));
    assert!(str_ends_with("archive.zip", ".zip"));
    assert!(!str_ends_with("archive.zip.txt", ".zip"));
    assert!(!str_ends_with("ip", ".zip"));
}

#[test]
fn string_equality_and_version_strip() {
    assert!(str_eq("x86_64", "x86_64"));
    assert!(!str_eq("x86_64", "arm64"));
    assert!(!str_eq("abc", "abd"));
    assert_eq!(strip_leading_chars("v1.10.0", 'v'), "1.10.0");
    assert_eq!(strip_leading_chars("vv2", 'v'), "2");
    assert_eq!(strip_leading_chars("1.0", 'v'), "1.0");
    assert_eq!(strip_leading_chars("", 'v'), "");
}
