//! The platforms for which upstream publishes archives.

use vstd::prelude::*;

verus! {

/// The operating system the binary is installed for.
#[derive(Clone, Copy, Debug, PartialEq, Eq, Structural)]
pub enum PlatformKey {
    Mac,
    Linux,
    Windows,
}

impl PlatformKey {
    /// The word that stands for this platform in an archive's name.
    pub open spec fn archive_tag_spec(self) -> Seq<char> {
        match self {
            PlatformKey::Mac => "darwin"@,
            PlatformKey::Linux => "linux"@,
            PlatformKey::Windows => "windows"@,
        }
    }

    /// What follows the binary's name on this platform.
    pub open spec fn exe_suffix_spec(self) -> Seq<char> {
        match self {
            PlatformKey::Windows => ".exe"@,
            _ => Seq::<char>::empty(),
        }
    }

    /// The platform's word in archive names.
    pub fn archive_tag(self) -> (tag: &'static str)
        ensures
            tag@ == self.archive_tag_spec(),
    {
        match self {
            PlatformKey::Mac => "darwin",
            PlatformKey::Linux => "linux",
            PlatformKey::Windows => "windows",
        }
    }

    /// The suffix of executables: `.exe` on Windows, nothing elsewhere.
    pub fn exe_suffix(self) -> (suffix: &'static str)
        ensures
            suffix@ == self.exe_suffix_spec(),
    {
        match self {
            PlatformKey::Windows => ".exe",
            _ => {
                proof {
                    reveal_strlit("");
                    assert(""@ =~= Seq::<char>::empty());
                }
                ""
            },
        }
    }

    /// Whether this platform is Windows.
    pub fn is_windows(self) -> (b: bool)
        ensures
            b == (self == PlatformKey::Windows),
    {
        match self {
            PlatformKey::Windows => true,
            _ => false,
        }
    }
}

} // verus!
