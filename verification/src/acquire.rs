//! Planning side of kernel acquisition: version discovery and asset
//! selection over release metadata, and the progress scale reported while
//! downloading.
//!
//! The network fetch, the file write and the extraction are performed by the
//! caller; this module decides, from the release description it was handed,
//! which asset to download and under what local name, and fails with a
//! descriptive error when the release carries no matching asset — in which
//! case no download is issued and no file is created.

use vstd::prelude::*;
use crate::strutil::contains_sub;
use crate::strutil::ends_with_seq;
use crate::strutil::str_contains;
use crate::strutil::str_ends_with;
use crate::strutil::str_eq;
use crate::strutil::strip_leading;
use crate::strutil::strip_leading_chars;

verus! {

/// One downloadable asset of a release: its file name and its download URL.
pub struct AssetInfo {
    pub name: String,
    pub url: String,
}

/// A release description: the version tag and the downloadable assets.
pub struct ReleaseInfo {
    pub tag_name: String,
    pub assets: Vec<AssetInfo>,
}

/// The decided download: version, the local file name for the archive, and
/// the URL of the selected asset.
pub struct DownloadPlan {
    pub version: String,
    pub asset_name: String,
    pub download_url: String,
}

/// Failure of acquisition planning.
#[derive(Debug)]
pub enum AcquireError {
    /// The release carries no asset for this platform; holds the asset name
    /// that was expected, for manual-download instructions.
    NoMatchingAsset(String),
}

pub open spec fn msg_no_matching_asset(expected: Seq<char>) -> Seq<char> {
    "no matching asset in release; expected "@ + expected
}

impl AcquireError {
    pub open spec fn msg_spec(&self) -> Seq<char> {
        match self {
            AcquireError::NoMatchingAsset(expected) => msg_no_matching_asset(expected@),
        }
    }

    /// Renders the error as its descriptive string.
    pub fn message(&self) -> (r: String)
        ensures
            r@ == self.msg_spec(),
    {
        match self {
            AcquireError::NoMatchingAsset(expected) => String::from_str(
                "no matching asset in release; expected ",
            ).concat(expected.as_str()),
        }
    }
}

/// An asset is usable when its name carries the platform-architecture pair
/// and it is a zip archive.
pub open spec fn asset_matches(name: Seq<char>) -> bool {
    contains_sub(name, "windows-amd64"@) && ends_with_seq(name, ".zip"@)
}

/// The architecture name used in asset file names.
pub open spec fn arch_norm(arch: Seq<char>) -> Seq<char> {
    if arch == "x86_64"@ {
        "amd64"@
    } else {
        arch
    }
}

/// The expected asset file name: `sing-box-<version>-<platform>-<arch>.zip`,
/// the version being the tag with its leading letter stripped.
pub open spec fn target_name_spec(tag: Seq<char>, platform: Seq<char>, arch: Seq<char>) -> Seq<
    char,
> {
    "sing-box-"@ + strip_leading(tag, 'v') + "-"@ + platform + "-"@ + arch_norm(arch) + ".zip"@
}

/// Builds the expected asset file name for this platform and architecture.
pub fn target_asset_name(tag: &str, platform: &str, arch: &str) -> (r: String)
    ensures
        r@ == target_name_spec(tag@, platform@, arch@),
{
    let mut s = String::from_str("sing-box-");
    let version = strip_leading_chars(tag, 'v');
    s.append(version.as_str());
    s.append("-");
    s.append(platform);
    s.append("-");
    if str_eq(arch, "x86_64") {
        s.append("amd64");
    } else {
        s.append(arch);
    }
    s.append(".zip");
    s
}

/// Decides the download for a release: succeeds exactly when the release
/// carries a matching asset, picking the first one, and otherwise fails with
/// the descriptive "no matching asset" error — so that the caller downloads
/// nothing and creates no file.
pub fn plan_download(release: &ReleaseInfo, platform: &str, arch: &str) -> (r: Result<
    DownloadPlan,
    AcquireError,
>)
    ensures
        (r is Ok) <==> (exists|i: int|
            0 <= i < release.assets@.len() && asset_matches(release.assets@[i].name@)),
        r matches Ok(p) ==> p.version@ == strip_leading(release.tag_name@, 'v') && p.asset_name@
            == target_name_spec(release.tag_name@, platform@, arch@) && (exists|i: int|
            0 <= i < release.assets@.len() && asset_matches(release.assets@[i].name@)
                && p.download_url@ == release.assets@[i].url@ && (forall|j: int|
                0 <= j < i ==> !asset_matches(release.assets@[j].name@))),
        r matches Err(e) ==> e matches AcquireError::NoMatchingAsset(m) && m@ == target_name_spec(
            release.tag_name@,
            platform@,
            arch@,
        ),
{
    let expected = target_asset_name(release.tag_name.as_str(), platform, arch);
    let n = release.assets.len();
    let mut i: usize = 0;
    while i < n
        invariant
            n == release.assets@.len(),
            0 <= i <= n,
            expected@ == target_name_spec(release.tag_name@, platform@, arch@),
            forall|j: int| 0 <= j < i ==> !asset_matches(release.assets@[j].name@),
        decreases n - i,
    {
        let a = &release.assets[i];
        if str_contains(a.name.as_str(), "windows-amd64") && str_ends_with(a.name.as_str(), ".zip")
        {
            let version = strip_leading_chars(release.tag_name.as_str(), 'v');
            let url = a.url.clone();
            proof {
                assert(0 <= i < release.assets@.len() && asset_matches(
                    release.assets@[i as int].name@,
                ) && url@ == release.assets@[i as int].url@ && (forall|j: int|
                    0 <= j < i ==> !asset_matches(release.assets@[j].name@)));
            }
            return Ok(DownloadPlan { version, asset_name: expected, download_url: url });
        }
        i += 1;
    }
    Err(AcquireError::NoMatchingAsset(expected))
}

/// The discrete stages acquisition reports.
#[derive(Clone, Copy, PartialEq, Eq, Structural, Debug)]
pub enum AcquireStage {
    Checking,
    Downloading,
    Extracting,
    Completed,
}

pub open spec fn stage_name_spec(stage: AcquireStage) -> Seq<char> {
    match stage {
        AcquireStage::Checking => "checking"@,
        AcquireStage::Downloading => "downloading"@,
        AcquireStage::Extracting => "extracting"@,
        AcquireStage::Completed => "completed"@,
    }
}

impl AcquireStage {
    /// The status word reported with a progress event.
    pub fn name(&self) -> (r: &'static str)
        ensures
            r@ == stage_name_spec(*self),
    {
        match self {
            AcquireStage::Checking => "checking",
            AcquireStage::Downloading => "downloading",
            AcquireStage::Extracting => "extracting",
            AcquireStage::Completed => "completed",
        }
    }

    /// The overall progress value at which this stage begins: checking 0,
    /// downloading 20, extracting 80, completed 100.
    pub fn progress(&self) -> (p: u8)
        ensures
            p <= 100,
            *self == AcquireStage::Checking ==> p == 0,
            *self == AcquireStage::Downloading ==> p == 20,
            *self == AcquireStage::Extracting ==> p == 80,
            *self == AcquireStage::Completed ==> p == 100,
    {
        match self {
            AcquireStage::Checking => 0,
            AcquireStage::Downloading => 20,
            AcquireStage::Extracting => 80,
            AcquireStage::Completed => 100,
        }
    }
}

/// Maps the raw download percentage (0 to 100) onto the overall progress
/// scale: the download occupies the span from 20 to 80.
pub fn download_progress(pct: u8) -> (p: u8)
    requires
        pct <= 100,
    ensures
        p == 20 + (3 * pct as int) / 5,
        20 <= p <= 80,
{
    let scaled: u32 = 3 * (pct as u32) / 5;
    20 + (scaled as u8)
}

} // verus!
