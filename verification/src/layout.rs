//! The on-disk layout `<tool id>/<version>/sqls[.exe]` and the names of the
//! release archives.

use vstd::prelude::*;
use vstd::string::*;
use crate::platform::PlatformKey;

verus! {

/// The directory under which every version of the tool is installed: the
/// tool's id followed by a slash.
pub open spec fn tool_root_spec(tool_id: Seq<char>) -> Seq<char> {
    tool_id + "/"@
}

/// The directory of one version: `<tool id>/<version>/`.
pub open spec fn version_dir_spec(tool_id: Seq<char>, version: Seq<char>) -> Seq<char> {
    tool_root_spec(tool_id) + version + "/"@
}

/// The binary of one version: `<tool id>/<version>/sqls`, with `.exe` behind
/// it on Windows.
pub open spec fn binary_path_spec(
    tool_id: Seq<char>,
    version: Seq<char>,
    platform: PlatformKey,
) -> Seq<char> {
    version_dir_spec(tool_id, version) + "sqls"@ + platform.exe_suffix_spec()
}

/// An entry of the tool's root directory, by its name.
pub open spec fn entry_path_spec(tool_id: Seq<char>, name: Seq<char>) -> Seq<char> {
    tool_root_spec(tool_id) + name
}

/// A release tag without its first character (the `v` of `v1.2.3`).
pub open spec fn bare_version_spec(version: Seq<char>) -> Seq<char>
    recommends
        version.len() >= 1,
{
    version.subrange(1, version.len() as int)
}

/// The archive that upstream publishes for a platform and a release tag:
/// `sqls-<platform>-<tag without its first character>.zip`.
pub open spec fn asset_name_spec(platform: PlatformKey, version: Seq<char>) -> Seq<char>
    recommends
        version.len() >= 1,
{
    "sqls-"@ + platform.archive_tag_spec() + "-"@ + bare_version_spec(version) + ".zip"@
}

/// The tool's root directory.
pub fn tool_root(tool_id: &str) -> (dir: String)
    ensures
        dir@ == tool_root_spec(tool_id@),
{
    String::from_str(tool_id).concat("/")
}

/// The directory into which a version's archive is unpacked.
pub fn version_dir(tool_id: &str, version: &str) -> (dir: String)
    ensures
        dir@ == version_dir_spec(tool_id@, version@),
{
    tool_root(tool_id).concat(version).concat("/")
}

/// Where the binary of a version stands once it is installed.
pub fn binary_path(tool_id: &str, version: &str, platform: PlatformKey) -> (path: String)
    ensures
        path@ == binary_path_spec(tool_id@, version@, platform),
{
    version_dir(tool_id, version).concat("sqls").concat(platform.exe_suffix())
}

/// The path of an entry of the tool's root directory.
pub fn entry_path(tool_id: &str, name: &str) -> (path: String)
    ensures
        path@ == entry_path_spec(tool_id@, name@),
{
    tool_root(tool_id).concat(name)
}

/// The name of the archive for a platform and a release tag. The tag must
/// hold the character that is stripped.
pub fn asset_name(platform: PlatformKey, version: &str) -> (name: String)
    requires
        version@.len() >= 1,
    ensures
        name@ == asset_name_spec(platform, version@),
{
    let n: usize = version.unicode_len();
    let bare = version.substring_char(1, n);
    String::from_str("sqls-").concat(platform.archive_tag()).concat("-").concat(bare).concat(".zip")
}

/// The binary's path ends in `.exe` on Windows, and in `sqls` anywhere else.
pub proof fn lemma_binary_path_suffix(tool_id: Seq<char>, version: Seq<char>, platform: PlatformKey)
    ensures
        platform == PlatformKey::Windows <==> ".exe"@.is_suffix_of(
            binary_path_spec(tool_id, version, platform),
        ),
        platform != PlatformKey::Windows ==> "sqls"@.is_suffix_of(
            binary_path_spec(tool_id, version, platform),
        ),
{
    reveal_strlit(".exe");
    reveal_strlit("sqls");
    let path = binary_path_spec(tool_id, version, platform);
    if platform == PlatformKey::Windows {
        assert(path.subrange(path.len() - 4, path.len() as int) =~= ".exe"@);
    } else {
        assert(path.subrange(path.len() - 4, path.len() as int) =~= "sqls"@);
        if ".exe"@.is_suffix_of(path) {
            assert(path.subrange(path.len() - 4, path.len() as int)[3] == 'e');
        }
    }
}

} // verus!
