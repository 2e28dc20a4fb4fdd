//! The ways in which provisioning fails.

use vstd::prelude::*;
use vstd::string::*;

verus! {

/// What went wrong.
#[derive(Clone, Copy, Debug, PartialEq, Eq, Structural)]
pub enum ErrorKind {
    /// The release index could not be reached or holds no qualifying release.
    ReleaseLookup,
    /// The release holds no archive for the platform and version.
    AssetNotFound,
    /// The archive could not be fetched or unpacked.
    Download,
    /// The binary could not be marked executable.
    Permission,
    /// Stale versions could not be listed or removed. The install stands.
    Cleanup,
    /// A file system failure that belongs to none of the steps above.
    Io,
}

/// A failure: its kind and the message that came with it.
#[derive(Clone, Debug, PartialEq, Eq)]
pub struct ProvisionError {
    pub kind: ErrorKind,
    pub message: String,
}

pub struct ProvisionErrorView {
    pub kind: ErrorKind,
    pub message: Seq<char>,
}

impl View for ProvisionError {
    type V = ProvisionErrorView;

    open spec fn view(&self) -> ProvisionErrorView {
        ProvisionErrorView { kind: self.kind, message: self.message@ }
    }
}

/// The message of the failure to find an archive.
pub open spec fn asset_not_found_message() -> Seq<char> {
    "no asset found for platform"@
}

impl ErrorKind {
    /// The words by which a kind is named in a description.
    pub open spec fn label_spec(self) -> Seq<char> {
        match self {
            ErrorKind::ReleaseLookup => "release lookup failed"@,
            ErrorKind::AssetNotFound => "asset not found"@,
            ErrorKind::Download => "download failed"@,
            ErrorKind::Permission => "permission change failed"@,
            ErrorKind::Cleanup => "cleanup failed"@,
            ErrorKind::Io => "file system failure"@,
        }
    }

    /// A few words that name the kind.
    pub fn label(self) -> (text: &'static str)
        ensures
            text@ == self.label_spec(),
    {
        match self {
            ErrorKind::ReleaseLookup => "release lookup failed",
            ErrorKind::AssetNotFound => "asset not found",
            ErrorKind::Download => "download failed",
            ErrorKind::Permission => "permission change failed",
            ErrorKind::Cleanup => "cleanup failed",
            ErrorKind::Io => "file system failure",
        }
    }
}

impl ProvisionError {
    /// A failure of the given kind with the given message.
    pub fn new(kind: ErrorKind, message: String) -> (error: ProvisionError)
        ensures
            error@ == (ProvisionErrorView { kind, message: message@ }),
    {
        ProvisionError { kind, message }
    }

    /// The failure to find an archive, with its fixed message.
    pub fn asset_not_found() -> (error: ProvisionError)
        ensures
            error@ == (ProvisionErrorView {
                kind: ErrorKind::AssetNotFound,
                message: asset_not_found_message(),
            }),
    {
        ProvisionError {
            kind: ErrorKind::AssetNotFound,
            message: String::from_str("no asset found for platform"),
        }
    }

    /// The kind's label, a colon and the message.
    pub open spec fn describe_spec(self) -> Seq<char> {
        self.kind.label_spec() + ": "@ + self.message@
    }

    /// The failure in one line, for a log.
    pub fn describe(&self) -> (text: String)
        ensures
            text@ == self.describe_spec(),
    {
        String::from_str(self.kind.label()).concat(": ").concat(self.message.as_str())
    }
}

} // verus!
