//! The provisioner: which outside work is asked for next, given what the last
//! piece of work reported.
//!
//! An attempt starts with [`Provisioner::begin`], which hands out the first
//! [`Action`]. The caller performs each action and reports its outcome as an
//! [`Event`] to [`Provisioner::step`], which hands out the next action, until
//! the action is `UseCached`, `Finish` or `Fail`.

use vstd::prelude::*;
use vstd::string::*;
use crate::cleanup::{names_view, stale_entries, stale_entries_spec};
use crate::error::{asset_not_found_message, ErrorKind, ProvisionError, ProvisionErrorView};
use crate::layout::{
    binary_path, binary_path_spec, entry_path, entry_path_spec, tool_root, tool_root_spec,
    version_dir, version_dir_spec,
};
use crate::platform::PlatformKey;
use crate::release::{archive_url_spec, opt_text, ReleaseInfo, ReleaseView};

verus! {

/// What the host is told about the installation.
#[derive(Clone, Copy, Debug, PartialEq, Eq, Structural)]
pub enum Status {
    Idle,
    CheckingForUpdate,
    Downloading,
}

/// A piece of outside work, or the end of the attempt.
#[derive(Clone, Debug, PartialEq, Eq)]
pub enum Action {
    /// Report whether a regular file stands at `path`.
    ProbeFile { path: String },
    /// Ask the release index for the latest release of `repo`.
    FetchRelease { repo: String, require_assets: bool, pre_release: bool },
    /// Fetch the zip archive at `url` and unpack it into `dir`.
    Download { url: String, dir: String },
    /// Mark the file at `path` executable.
    MakeExecutable { path: String },
    /// List the names of the entries of `dir`.
    ListDir { dir: String },
    /// Remove the directory at `path` with all it holds.
    RemoveDir { path: String },
    /// The path found earlier still leads to a file: it is handed out again,
    /// and the host is told nothing.
    UseCached { path: String },
    /// The binary of the latest release stands at `path`. A cleanup that
    /// failed is reported beside it.
    Finish { path: String, cleanup_error: Option<ProvisionError> },
    /// The attempt failed.
    Fail { error: ProvisionError },
}

pub enum ActionView {
    ProbeFile { path: Seq<char> },
    FetchRelease { repo: Seq<char>, require_assets: bool, pre_release: bool },
    Download { url: Seq<char>, dir: Seq<char> },
    MakeExecutable { path: Seq<char> },
    ListDir { dir: Seq<char> },
    RemoveDir { path: Seq<char> },
    UseCached { path: Seq<char> },
    Finish { path: Seq<char>, cleanup_error: Option<ProvisionErrorView> },
    Fail { error: ProvisionErrorView },
}

/// An optional failure, by its view.
pub open spec fn opt_error(error: Option<ProvisionError>) -> Option<ProvisionErrorView> {
    match error {
        Some(e) => Some(e@),
        None => None,
    }
}

/// An optional action, by its view.
pub open spec fn opt_action(action: Option<Action>) -> Option<ActionView> {
    match action {
        Some(a) => Some(a@),
        None => None,
    }
}

impl View for Action {
    type V = ActionView;

    open spec fn view(&self) -> ActionView {
        match *self {
            Action::ProbeFile { path } => ActionView::ProbeFile { path: path@ },
            Action::FetchRelease { repo, require_assets, pre_release } => ActionView::FetchRelease {
                repo: repo@,
                require_assets,
                pre_release,
            },
            Action::Download { url, dir } => ActionView::Download { url: url@, dir: dir@ },
            Action::MakeExecutable { path } => ActionView::MakeExecutable { path: path@ },
            Action::ListDir { dir } => ActionView::ListDir { dir: dir@ },
            Action::RemoveDir { path } => ActionView::RemoveDir { path: path@ },
            Action::UseCached { path } => ActionView::UseCached { path: path@ },
            Action::Finish { path, cleanup_error } => ActionView::Finish {
                path: path@,
                cleanup_error: opt_error(cleanup_error),
            },
            Action::Fail { error } => ActionView::Fail { error: error@ },
        }
    }
}

/// The status that the host is shown before an action is performed, if the
/// action changes it: the lookup and the download are announced, and the end
/// of an attempt that looked up a release clears the status. An attempt that
/// ends on the cached path shows none.
pub open spec fn status_spec(action: ActionView) -> Option<Status> {
    match action {
        ActionView::FetchRelease { .. } => Some(Status::CheckingForUpdate),
        ActionView::Download { .. } => Some(Status::Downloading),
        ActionView::Finish { .. } => Some(Status::Idle),
        _ => None,
    }
}

impl Action {
    /// The status to show the host before this action is performed.
    pub fn status(&self) -> (status: Option<Status>)
        ensures
            status == status_spec(self@),
    {
        match self {
            Action::FetchRelease { .. } => Some(Status::CheckingForUpdate),
            Action::Download { .. } => Some(Status::Downloading),
            Action::Finish { .. } => Some(Status::Idle),
            _ => None,
        }
    }

    /// Whether the attempt is over with this action.
    pub fn is_final(&self) -> (b: bool)
        ensures
            b == (self@ is UseCached || self@ is Finish || self@ is Fail),
    {
        match self {
            Action::UseCached { .. } => true,
            Action::Finish { .. } => true,
            Action::Fail { .. } => true,
            _ => false,
        }
    }
}

/// The outcome of a piece of outside work.
#[derive(Clone, Debug, PartialEq, Eq)]
pub enum Event {
    /// Whether a regular file stands at the probed path.
    FileProbed { is_file: bool },
    ReleaseFound { release: ReleaseInfo },
    ReleaseLookupFailed { message: String },
    Downloaded,
    DownloadFailed { message: String },
    MadeExecutable,
    PermissionFailed { message: String },
    /// The names that the listing gave before it ended, and the failure that
    /// ended it early, if one did.
    Listed { names: Vec<String>, error: Option<String> },
    Removed,
    RemoveFailed { message: String },
}

pub enum EventView {
    FileProbed { is_file: bool },
    ReleaseFound { release: ReleaseView },
    ReleaseLookupFailed { message: Seq<char> },
    Downloaded,
    DownloadFailed { message: Seq<char> },
    MadeExecutable,
    PermissionFailed { message: Seq<char> },
    Listed { names: Seq<Seq<char>>, error: Option<Seq<char>> },
    Removed,
    RemoveFailed { message: Seq<char> },
}

impl View for Event {
    type V = EventView;

    open spec fn view(&self) -> EventView {
        match *self {
            Event::FileProbed { is_file } => EventView::FileProbed { is_file },
            Event::ReleaseFound { release } => EventView::ReleaseFound { release: release@ },
            Event::ReleaseLookupFailed { message } => EventView::ReleaseLookupFailed {
                message: message@,
            },
            Event::Downloaded => EventView::Downloaded,
            Event::DownloadFailed { message } => EventView::DownloadFailed { message: message@ },
            Event::MadeExecutable => EventView::MadeExecutable,
            Event::PermissionFailed { message } => EventView::PermissionFailed {
                message: message@,
            },
            Event::Listed { names, error } => EventView::Listed {
                names: names_view(names@),
                error: opt_text(error),
            },
            Event::Removed => EventView::Removed,
            Event::RemoveFailed { message } => EventView::RemoveFailed { message: message@ },
        }
    }
}

/// Where an attempt stands: the outcome of which work is awaited.
enum Phase {
    Idle,
    ProbingCache { path: String },
    LookingUp,
    ProbingBinary { release: ReleaseInfo },
    Downloading { version: String },
    FixingPermissions { version: String },
    Listing { version: String },
    /// The removal of `stale[next]` is awaited.
    Cleaning { version: String, stale: Vec<String>, next: usize, listing_error: Option<String> },
}

pub enum PhaseView {
    /// No attempt is under way.
    Idle,
    /// The probe of the cached path is awaited.
    ProbingCache { path: Seq<char> },
    /// The release index's answer is awaited.
    LookingUp,
    /// The probe of the release's binary is awaited.
    ProbingBinary { release: ReleaseView },
    Downloading { version: Seq<char> },
    FixingPermissions { version: Seq<char> },
    Listing { version: Seq<char> },
    /// The removal of the first of `pending` is awaited, the others follow.
    Cleaning { version: Seq<char>, pending: Seq<Seq<char>>, listing_error: Option<Seq<char>> },
}

impl View for Phase {
    type V = PhaseView;

    closed spec fn view(&self) -> PhaseView {
        match *self {
            Phase::Idle => PhaseView::Idle,
            Phase::ProbingCache { path } => PhaseView::ProbingCache { path: path@ },
            Phase::LookingUp => PhaseView::LookingUp,
            Phase::ProbingBinary { release } => PhaseView::ProbingBinary { release: release@ },
            Phase::Downloading { version } => PhaseView::Downloading { version: version@ },
            Phase::FixingPermissions { version } => PhaseView::FixingPermissions {
                version: version@,
            },
            Phase::Listing { version } => PhaseView::Listing { version: version@ },
            Phase::Cleaning { version, stale, next, listing_error } => PhaseView::Cleaning {
                version: version@,
                pending: if next <= stale@.len() {
                    names_view(stale@).skip(next as int)
                } else {
                    Seq::empty()
                },
                listing_error: opt_text(listing_error),
            },
        }
    }
}

/// The provisioner of one tool: the path it found last, and where the
/// attempt under way stands.
pub struct Provisioner {
    tool_id: String,
    platform: PlatformKey,
    cached_path: Option<String>,
    phase: Phase,
}

pub struct ProvisionerView {
    pub tool_id: Seq<char>,
    pub platform: PlatformKey,
    pub cached_path: Option<Seq<char>>,
    pub phase: PhaseView,
}

impl View for Provisioner {
    type V = ProvisionerView;

    closed spec fn view(&self) -> ProvisionerView {
        ProvisionerView {
            tool_id: self.tool_id@,
            platform: self.platform,
            cached_path: opt_text(self.cached_path),
            phase: self.phase@,
        }
    }
}

/// The upstream project whose releases are installed.
pub open spec fn repo_spec() -> Seq<char> {
    "sqls-server/sqls"@
}

/// The lookup: the latest release that is no pre-release and has assets.
pub open spec fn lookup_spec() -> ActionView {
    ActionView::FetchRelease { repo: repo_spec(), require_assets: true, pre_release: false }
}

/// A state with another phase.
pub open spec fn in_phase(s: ProvisionerView, phase: PhaseView) -> ProvisionerView {
    ProvisionerView { phase, ..s }
}

/// The start of an attempt for `tool_id` on `platform`: a cached path is
/// probed, and without one the release is looked up.
pub open spec fn begin_spec(s: ProvisionerView, tool_id: Seq<char>, platform: PlatformKey) -> (
    ProvisionerView,
    ActionView,
) {
    let started = ProvisionerView { tool_id, platform, ..s };
    match s.cached_path {
        Some(path) => (
            in_phase(started, PhaseView::ProbingCache { path }),
            ActionView::ProbeFile { path },
        ),
        None => (in_phase(started, PhaseView::LookingUp), lookup_spec()),
    }
}

/// The end of an attempt on the cached path: the path stays cached and is
/// handed out.
pub open spec fn reuse_spec(s: ProvisionerView, path: Seq<char>) -> (ProvisionerView, ActionView) {
    (
        ProvisionerView { cached_path: Some(path), phase: PhaseView::Idle, ..s },
        ActionView::UseCached { path },
    )
}

/// The good end of an attempt that looked up a release: the path is cached
/// and handed out, with the cleanup's failure beside it if there was one.
pub open spec fn finish_spec(s: ProvisionerView, path: Seq<char>, cleanup: Option<Seq<char>>) -> (
    ProvisionerView,
    ActionView,
) {
    (
        ProvisionerView { cached_path: Some(path), phase: PhaseView::Idle, ..s },
        ActionView::Finish {
            path,
            cleanup_error: match cleanup {
                Some(message) => Some(ProvisionErrorView { kind: ErrorKind::Cleanup, message }),
                None => None,
            },
        },
    )
}

/// The bad end of an attempt: nothing is cached.
pub open spec fn fail_spec(s: ProvisionerView, kind: ErrorKind, message: Seq<char>) -> (
    ProvisionerView,
    ActionView,
) {
    (
        in_phase(s, PhaseView::Idle),
        ActionView::Fail { error: ProvisionErrorView { kind, message } },
    )
}

/// What remains of the cleanup once the first of `pending` is gone.
pub open spec fn after_removal_spec(
    s: ProvisionerView,
    version: Seq<char>,
    pending: Seq<Seq<char>>,
    listing_error: Option<Seq<char>>,
) -> (ProvisionerView, ActionView) {
    let rest = if pending.len() > 0 {
        pending.skip(1)
    } else {
        pending
    };
    cleanup_spec(s, version, rest, listing_error)
}

/// The cleanup of `pending`: the first is removed next. With none left the
/// attempt ends well, and a failure of the listing is reported beside the
/// path.
pub open spec fn cleanup_spec(
    s: ProvisionerView,
    version: Seq<char>,
    pending: Seq<Seq<char>>,
    listing_error: Option<Seq<char>>,
) -> (ProvisionerView, ActionView) {
    if pending.len() == 0 {
        finish_spec(s, binary_path_spec(s.tool_id, version, s.platform), listing_error)
    } else {
        (
            in_phase(s, PhaseView::Cleaning { version, pending, listing_error }),
            ActionView::RemoveDir { path: entry_path_spec(s.tool_id, pending[0]) },
        )
    }
}

/// The next state and action, for an event that answers the work awaited;
/// `None` for any other event.
pub open spec fn step_spec(s: ProvisionerView, e: EventView) -> Option<
    (ProvisionerView, ActionView),
> {
    match (s.phase, e) {
        (PhaseView::ProbingCache { path }, EventView::FileProbed { is_file }) => Some(
            if is_file {
                reuse_spec(s, path)
            } else {
                (in_phase(s, PhaseView::LookingUp), lookup_spec())
            },
        ),
        (PhaseView::LookingUp, EventView::ReleaseFound { release }) => Some(
            (
                in_phase(s, PhaseView::ProbingBinary { release }),
                ActionView::ProbeFile {
                    path: binary_path_spec(s.tool_id, release.version, s.platform),
                },
            ),
        ),
        (PhaseView::LookingUp, EventView::ReleaseLookupFailed { message }) => Some(
            fail_spec(s, ErrorKind::ReleaseLookup, message),
        ),
        (PhaseView::ProbingBinary { release }, EventView::FileProbed { is_file }) => Some(
            if is_file {
                finish_spec(s, binary_path_spec(s.tool_id, release.version, s.platform), None)
            } else {
                match archive_url_spec(release, s.platform) {
                    Some(url) => (
                        in_phase(s, PhaseView::Downloading { version: release.version }),
                        ActionView::Download {
                            url,
                            dir: version_dir_spec(s.tool_id, release.version),
                        },
                    ),
                    None => fail_spec(s, ErrorKind::AssetNotFound, asset_not_found_message()),
                }
            },
        ),
        (PhaseView::Downloading { version }, EventView::Downloaded) => Some(
            (
                in_phase(s, PhaseView::FixingPermissions { version }),
                ActionView::MakeExecutable {
                    path: binary_path_spec(s.tool_id, version, s.platform),
                },
            ),
        ),
        (PhaseView::Downloading { version }, EventView::DownloadFailed { message }) => Some(
            fail_spec(s, ErrorKind::Download, message),
        ),
        (PhaseView::FixingPermissions { version }, EventView::MadeExecutable) => Some(
            (
                in_phase(s, PhaseView::Listing { version }),
                ActionView::ListDir { dir: tool_root_spec(s.tool_id) },
            ),
        ),
        (PhaseView::FixingPermissions { version }, EventView::PermissionFailed { message }) => Some(
            fail_spec(s, ErrorKind::Permission, message),
        ),
        (PhaseView::Listing { version }, EventView::Listed { names, error }) => Some(
            cleanup_spec(s, version, stale_entries_spec(names, version), error),
        ),
        (PhaseView::Cleaning { version, pending, listing_error }, EventView::Removed) => Some(
            after_removal_spec(s, version, pending, listing_error),
        ),
        (
            PhaseView::Cleaning { version, pending, listing_error },
            EventView::RemoveFailed { message },
        ) => Some(
            finish_spec(s, binary_path_spec(s.tool_id, version, s.platform), Some(message)),
        ),
        _ => None,
    }
}

/// The lookup that every attempt without a usable cached path makes.
pub fn lookup_action() -> (action: Action)
    ensures
        action@ == lookup_spec(),
{
    Action::FetchRelease {
        repo: String::from_str("sqls-server/sqls"),
        require_assets: true,
        pre_release: false,
    }
}

impl Provisioner {
    /// A provisioner that has found no path yet. Until an attempt names the
    /// tool and the platform, the tool's id is empty and the platform Linux.
    pub fn new() -> (p: Provisioner)
        ensures
            p@.cached_path is None,
            p@.phase is Idle,
            p@.tool_id == Seq::<char>::empty(),
            p@.platform == PlatformKey::Linux,
    {
        Provisioner {
            tool_id: String::new(),
            platform: PlatformKey::Linux,
            cached_path: None,
            phase: Phase::Idle,
        }
    }

    /// The path found last.
    pub fn cached_path(&self) -> (path: Option<String>)
        ensures
            opt_text(path) == self@.cached_path,
    {
        match &self.cached_path {
            Some(p) => Some(p.clone()),
            None => None,
        }
    }

    /// Whether no attempt is under way.
    pub fn is_idle(&self) -> (b: bool)
        ensures
            b == (self@.phase is Idle),
    {
        match &self.phase {
            Phase::Idle => true,
            _ => false,
        }
    }

    /// Starts an attempt, giving up any that was under way.
    pub fn begin(&mut self, tool_id: &str, platform: PlatformKey) -> (action: Action)
        ensures
            (final(self)@, action@) == begin_spec(old(self)@, tool_id@, platform),
    {
        self.tool_id = String::from_str(tool_id);
        self.platform = platform;
        match &self.cached_path {
            Some(p) => {
                let path = p.clone();
                self.phase = Phase::ProbingCache { path: path.clone() };
                Action::ProbeFile { path }
            },
            None => {
                self.phase = Phase::LookingUp;
                lookup_action()
            },
        }
    }

    fn finish(&mut self, path: String, cleanup: Option<String>) -> (action: Action)
        ensures
            (final(self)@, action@) == finish_spec(old(self)@, path@, opt_text(cleanup)),
    {
        self.cached_path = Some(path.clone());
        self.phase = Phase::Idle;
        let cleanup_error = match cleanup {
            Some(message) => Some(ProvisionError::new(ErrorKind::Cleanup, message)),
            None => None,
        };
        Action::Finish { path, cleanup_error }
    }

    fn fail(&mut self, kind: ErrorKind, message: String) -> (action: Action)
        ensures
            (final(self)@, action@) == fail_spec(old(self)@, kind, message@),
    {
        self.phase = Phase::Idle;
        Action::Fail { error: ProvisionError::new(kind, message) }
    }

    /// Goes on with the cleanup at `stale[next]`.
    fn cleanup(
        &mut self,
        version: String,
        stale: Vec<String>,
        next: usize,
        listing_error: Option<String>,
    ) -> (action: Action)
        requires
            next <= stale@.len(),
        ensures
            (final(self)@, action@) == cleanup_spec(
                old(self)@,
                version@,
                names_view(stale@).skip(next as int),
                opt_text(listing_error),
            ),
    {
        if next < stale.len() {
            let path = entry_path(self.tool_id.as_str(), stale[next].as_str());
            self.phase = Phase::Cleaning { version, stale, next, listing_error };
            Action::RemoveDir { path }
        } else {
            let path = binary_path(self.tool_id.as_str(), version.as_str(), self.platform);
            self.finish(path, listing_error)
        }
    }

    /// Takes the outcome of the work that the last action asked for and hands
    /// out the next action. An event that does not answer that work changes
    /// nothing and gets `None`.
    pub fn step(&mut self, event: Event) -> (action: Option<Action>)
        ensures
            match step_spec(old(self)@, event@) {
                Some((next, act)) => final(self)@ == next && opt_action(action) == Some(act),
                None => final(self)@ == old(self)@ && action is None,
            },
    {
        let mut phase = Phase::Idle;
        core::mem::swap(&mut self.phase, &mut phase);
        match (phase, event) {
            (Phase::ProbingCache { path }, Event::FileProbed { is_file }) => {
                if is_file {
                    self.cached_path = Some(path.clone());
                    Some(Action::UseCached { path })
                } else {
                    self.phase = Phase::LookingUp;
                    Some(lookup_action())
                }
            },
            (Phase::LookingUp, Event::ReleaseFound { release }) => {
                let path = binary_path(
                    self.tool_id.as_str(),
                    release.version.as_str(),
                    self.platform,
                );
                self.phase = Phase::ProbingBinary { release };
                Some(Action::ProbeFile { path })
            },
            (Phase::LookingUp, Event::ReleaseLookupFailed { message }) => {
                Some(self.fail(ErrorKind::ReleaseLookup, message))
            },
            (Phase::ProbingBinary { release }, Event::FileProbed { is_file }) => {
                if is_file {
                    let path = binary_path(
                        self.tool_id.as_str(),
                        release.version.as_str(),
                        self.platform,
                    );
                    Some(self.finish(path, None))
                } else {
                    match release.archive_url(self.platform) {
                        Some(url) => {
                            let dir = version_dir(self.tool_id.as_str(), release.version.as_str());
                            self.phase = Phase::Downloading { version: release.version };
                            Some(Action::Download { url, dir })
                        },
                        None => {
                            self.phase = Phase::Idle;
                            Some(Action::Fail { error: ProvisionError::asset_not_found() })
                        },
                    }
                }
            },
            (Phase::Downloading { version }, Event::Downloaded) => {
                let path = binary_path(self.tool_id.as_str(), version.as_str(), self.platform);
                self.phase = Phase::FixingPermissions { version };
                Some(Action::MakeExecutable { path })
            },
            (Phase::Downloading { version }, Event::DownloadFailed { message }) => {
                Some(self.fail(ErrorKind::Download, message))
            },
            (Phase::FixingPermissions { version }, Event::MadeExecutable) => {
                let dir = tool_root(self.tool_id.as_str());
                self.phase = Phase::Listing { version };
                Some(Action::ListDir { dir })
            },
            (Phase::FixingPermissions { version }, Event::PermissionFailed { message }) => {
                Some(self.fail(ErrorKind::Permission, message))
            },
            (Phase::Listing { version }, Event::Listed { names, error }) => {
                let stale = stale_entries(&names, version.as_str());
                assert(names_view(stale@).skip(0) =~= names_view(stale@));
                Some(self.cleanup(version, stale, 0, error))
            },
            (Phase::Cleaning { version, stale, next, listing_error }, Event::Removed) => {
                if next < stale.len() {
                    assert(names_view(stale@).skip(next as int).skip(1) =~= names_view(
                        stale@,
                    ).skip(next + 1));
                    Some(self.cleanup(version, stale, next + 1, listing_error))
                } else {
                    let len: usize = stale.len();
                    Some(self.cleanup(version, stale, len, listing_error))
                }
            },
            (Phase::Cleaning { version, stale, next, listing_error }, Event::RemoveFailed { message }) => {
                let path = binary_path(self.tool_id.as_str(), version.as_str(), self.platform);
                Some(self.finish(path, Some(message)))
            },
            (phase, _) => {
                self.phase = phase;
                None
            },
        }
    }
}

} // verus!
