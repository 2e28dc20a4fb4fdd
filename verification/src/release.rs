//! A release of the upstream project and the archives attached to it.

use vstd::prelude::*;
use vstd::string::*;
use crate::layout::{asset_name, asset_name_spec};
use crate::platform::PlatformKey;

verus! {

/// One file attached to a release.
#[derive(Clone, Debug, PartialEq, Eq)]
pub struct Asset {
    pub name: String,
    pub download_url: String,
}

pub struct AssetView {
    pub name: Seq<char>,
    pub download_url: Seq<char>,
}

impl View for Asset {
    type V = AssetView;

    open spec fn view(&self) -> AssetView {
        AssetView { name: self.name@, download_url: self.download_url@ }
    }
}

/// A release: its tag (such as `v1.2.3`) and its assets, in the order in which
/// the release index lists them.
#[derive(Clone, Debug, PartialEq, Eq)]
pub struct ReleaseInfo {
    pub version: String,
    pub assets: Vec<Asset>,
}

pub struct ReleaseView {
    pub version: Seq<char>,
    pub assets: Seq<AssetView>,
}

impl ReleaseView {
    /// A tag holds at least the character that an archive's name leaves out.
    pub open spec fn wf(self) -> bool {
        self.version.len() >= 1
    }
}

/// The assets of a release, each by its view.
pub open spec fn assets_view(assets: Seq<Asset>) -> Seq<AssetView> {
    Seq::new(assets.len(), |i: int| assets[i]@)
}

impl View for ReleaseInfo {
    type V = ReleaseView;

    open spec fn view(&self) -> ReleaseView {
        ReleaseView { version: self.version@, assets: assets_view(self.assets@) }
    }
}

/// `i` is the place of the first asset called `name`.
pub open spec fn is_first_named(assets: Seq<AssetView>, name: Seq<char>, i: int) -> bool {
    &&& 0 <= i < assets.len()
    &&& assets[i].name == name
    &&& forall|j: int| 0 <= j < i ==> (#[trigger] assets[j]).name != name
}

/// The place of the first asset called `name`, if there is one.
pub open spec fn first_named(assets: Seq<AssetView>, name: Seq<char>) -> Option<int> {
    if exists|i: int| is_first_named(assets, name, i) {
        Some(choose|i: int| is_first_named(assets, name, i))
    } else {
        None
    }
}

/// `first_named` finds an asset exactly when one carries the name, and then
/// the earliest.
pub proof fn lemma_first_named(assets: Seq<AssetView>, name: Seq<char>)
    ensures
        match first_named(assets, name) {
            Some(i) => is_first_named(assets, name, i),
            None => forall|j: int| 0 <= j < assets.len() ==> (#[trigger] assets[j]).name != name,
        },
{
    if first_named(assets, name) is None {
        assert forall|j: int| 0 <= j < assets.len() implies (#[trigger] assets[j]).name
            != name by {
            if assets[j].name == name {
                lemma_some_first(assets, name, j);
            }
        }
    }
}

/// Below any asset called `name` stands a first one.
proof fn lemma_some_first(assets: Seq<AssetView>, name: Seq<char>, k: int)
    requires
        0 <= k < assets.len(),
        assets[k].name == name,
    ensures
        exists|i: int| is_first_named(assets, name, i),
    decreases k,
{
    if exists|j: int| 0 <= j < k && (#[trigger] assets[j]).name == name {
        let j = choose|j: int| 0 <= j < k && (#[trigger] assets[j]).name == name;
        lemma_some_first(assets, name, j);
    } else {
        assert(is_first_named(assets, name, k));
    }
}

/// Where the archive for a platform is fetched from: the address of the first
/// asset that carries the archive's name, if the release holds one. A release
/// whose tag is empty names no archive, so it holds none.
pub open spec fn archive_url_spec(release: ReleaseView, platform: PlatformKey) -> Option<Seq<char>> {
    if release.wf() {
        match first_named(release.assets, asset_name_spec(platform, release.version)) {
            Some(i) => Some(release.assets[i].download_url),
            None => None,
        }
    } else {
        None
    }
}

/// An optional text, by its view.
pub open spec fn opt_text(text: Option<String>) -> Option<Seq<char>> {
    match text {
        Some(t) => Some(t@),
        None => None,
    }
}

/// Two first places are one.
pub proof fn lemma_first_named_unique(assets: Seq<AssetView>, name: Seq<char>, i: int)
    requires
        is_first_named(assets, name, i),
    ensures
        first_named(assets, name) == Some(i),
{
}

impl ReleaseInfo {
    /// A release with the given tag and assets.
    pub fn new(version: String, assets: Vec<Asset>) -> (release: ReleaseInfo)
        ensures
            release.version == version,
            release.assets == assets,
    {
        ReleaseInfo { version, assets }
    }

    /// Whether the tag holds a character to strip.
    pub fn is_wf(&self) -> (b: bool)
        ensures
            b == self@.wf(),
    {
        self.version.as_str().unicode_len() >= 1
    }

    /// The index of the first asset called `name`.
    pub fn find_asset(&self, name: &str) -> (found: Option<usize>)
        ensures
            match found {
                Some(i) => first_named(self@.assets, name@) == Some(i as int),
                None => first_named(self@.assets, name@) is None,
            },
    {
        let target = String::from_str(name);
        let mut i: usize = 0;
        while i < self.assets.len()
            invariant
                i <= self.assets.len(),
                target@ == name@,
                forall|j: int| 0 <= j < i ==> (#[trigger] self@.assets[j]).name != name@,
            decreases self.assets.len() - i,
        {
            if self.assets[i].name == target {
                proof {
                    assert(self@.assets[i as int] == self.assets@[i as int]@);
                    lemma_first_named_unique(self@.assets, name@, i as int);
                }
                return Some(i);
            }
            i += 1;
        }
        proof {
            lemma_first_named(self@.assets, name@);
        }
        None
    }

    /// The address of the archive for `platform`.
    pub fn archive_url(&self, platform: PlatformKey) -> (url: Option<String>)
        ensures
            opt_text(url) == archive_url_spec(self@, platform),
    {
        if !self.is_wf() {
            return None;
        }
        let name = asset_name(platform, self.version.as_str());
        match self.find_asset(name.as_str()) {
            Some(i) => Some(self.assets[i].download_url.clone()),
            None => None,
        }
    }
}

} // verus!
