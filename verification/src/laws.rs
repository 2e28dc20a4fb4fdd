//! What holds of every attempt, stated over the provisioner's transitions.

use vstd::prelude::*;
use crate::cleanup::{lemma_stale_entries, stale_entries_spec};
use crate::error::{asset_not_found_message, ErrorKind, ProvisionErrorView};
use crate::layout::{asset_name_spec, binary_path_spec, entry_path_spec, version_dir_spec};
use crate::machine::{
    begin_spec, cleanup_spec, in_phase, lookup_spec, status_spec, step_spec, ActionView,
    EventView, PhaseView, ProvisionerView, Status,
};
use crate::platform::PlatformKey;
use crate::release::{
    archive_url_spec, lemma_first_named, lemma_first_named_unique, ReleaseView,
};

verus! {

/// An attempt that starts with a cached path probes that path first, and if a
/// file stands there the attempt ends at once with that very path: neither a
/// lookup nor a download is asked for, the cache keeps the path, and the host
/// is shown no status, neither with the probe nor with the end.
pub proof fn lemma_cached_hit(
    s: ProvisionerView,
    tool_id: Seq<char>,
    platform: PlatformKey,
    path: Seq<char>,
)
    requires
        s.cached_path == Some(path),
    ensures
        begin_spec(s, tool_id, platform).1 == (ActionView::ProbeFile { path }),
        step_spec(begin_spec(s, tool_id, platform).0, EventView::FileProbed { is_file: true })
            == Some(
            (
                ProvisionerView { tool_id, platform, cached_path: Some(path), phase: PhaseView::Idle },
                ActionView::UseCached { path },
            ),
        ),
        status_spec(ActionView::ProbeFile { path }) is None,
        status_spec(ActionView::UseCached { path }) is None,
{
}

/// An attempt that follows one that ended well is silent as long as the file
/// is there: it probes the path that the first attempt handed out, hands it
/// out again, asks for nothing else and shows the host no status. The cache
/// holds that path before and after.
pub proof fn lemma_second_attempt_is_silent(
    s: ProvisionerView,
    e: EventView,
    tool_id: Seq<char>,
    platform: PlatformKey,
)
    ensures
        match step_spec(s, e) {
            Some((done, ActionView::Finish { path, .. })) => done.cached_path == Some(path)
                && begin_spec(done, tool_id, platform).1 == (ActionView::ProbeFile { path })
                && step_spec(
                begin_spec(done, tool_id, platform).0,
                EventView::FileProbed { is_file: true },
            ) == Some(
                (
                    ProvisionerView {
                        tool_id,
                        platform,
                        cached_path: Some(path),
                        phase: PhaseView::Idle,
                    },
                    ActionView::UseCached { path },
                ),
            ),
            Some((done, ActionView::UseCached { path })) => done.cached_path == Some(path)
                && begin_spec(done, tool_id, platform).1 == (ActionView::ProbeFile { path })
                && step_spec(
                begin_spec(done, tool_id, platform).0,
                EventView::FileProbed { is_file: true },
            ) == Some(
                (
                    ProvisionerView {
                        tool_id,
                        platform,
                        cached_path: Some(path),
                        phase: PhaseView::Idle,
                    },
                    ActionView::UseCached { path },
                ),
            ),
            _ => true,
        },
{
}

/// Which status goes with which step. The host is shown "checking for
/// update" with the lookup and only then, "downloading" with the download and
/// only then, and the idle status with the end of an attempt that looked up a
/// release and ended well, and only then. Probes, the permission fix, the
/// listing, removals, a failure and the end on the cached path show nothing.
pub proof fn lemma_status_of_steps(action: ActionView)
    ensures
        status_spec(action) == Some(Status::CheckingForUpdate) <==> action is FetchRelease,
        status_spec(action) == Some(Status::Downloading) <==> action is Download,
        status_spec(action) == Some(Status::Idle) <==> action is Finish,
        status_spec(action) is None <==> !(action is FetchRelease || action is Download
            || action is Finish),
{
}

/// An attempt whose cached path no longer leads to a file goes on as one
/// without a cached path does: with the lookup of the latest release, which
/// the host is shown as "checking for update".
pub proof fn lemma_cached_miss(
    s: ProvisionerView,
    tool_id: Seq<char>,
    platform: PlatformKey,
    path: Seq<char>,
)
    requires
        s.cached_path == Some(path),
    ensures
        step_spec(begin_spec(s, tool_id, platform).0, EventView::FileProbed { is_file: false })
            == Some(
            (
                ProvisionerView {
                    tool_id,
                    platform,
                    cached_path: Some(path),
                    phase: PhaseView::LookingUp,
                },
                lookup_spec(),
            ),
        ),
        begin_spec(ProvisionerView { cached_path: None, ..s }, tool_id, platform) == (
            ProvisionerView { tool_id, platform, cached_path: None, phase: PhaseView::LookingUp },
            lookup_spec(),
        ),
        status_spec(lookup_spec()) == Some(Status::CheckingForUpdate),
{
}

/// The state and the action after a release was reported and the probe of
/// its binary was answered.
pub open spec fn after_release_probe(s: ProvisionerView, release: ReleaseView, is_file: bool)
    -> Option<(ProvisionerView, ActionView)> {
    match step_spec(s, EventView::ReleaseFound { release }) {
        Some((probing, _)) => step_spec(probing, EventView::FileProbed { is_file }),
        None => None,
    }
}

/// Where the release holds no asset with the archive's name, or its tag is
/// empty and so names no archive, and the binary is not installed, the attempt
/// fails for want of the asset. No download was asked for on the way, and the
/// cache is as it was.
pub proof fn lemma_missing_asset_fails(s: ProvisionerView, release: ReleaseView)
    requires
        s.phase is LookingUp,
        !release.wf() || forall|j: int|
            0 <= j < release.assets.len() ==> (#[trigger] release.assets[j]).name
                != asset_name_spec(s.platform, release.version),
    ensures
        step_spec(s, EventView::ReleaseFound { release }) matches Some((_, first))
            && first == (ActionView::ProbeFile {
            path: binary_path_spec(s.tool_id, release.version, s.platform),
        }),
        after_release_probe(s, release, false) == Some(
            (
                in_phase(s, PhaseView::Idle),
                ActionView::Fail {
                    error: ProvisionErrorView {
                        kind: ErrorKind::AssetNotFound,
                        message: asset_not_found_message(),
                    },
                },
            ),
        ),
{
    lemma_first_named(release.assets, asset_name_spec(s.platform, release.version));
}

/// Where the release holds an asset with the archive's name and the binary is
/// not installed, the first such asset is downloaded into the version's
/// directory.
pub proof fn lemma_first_asset_is_downloaded(s: ProvisionerView, release: ReleaseView, i: int)
    requires
        s.phase is LookingUp,
        release.wf(),
        0 <= i < release.assets.len(),
        release.assets[i].name == asset_name_spec(s.platform, release.version),
        forall|j: int|
            0 <= j < i ==> (#[trigger] release.assets[j]).name != asset_name_spec(
                s.platform,
                release.version,
            ),
    ensures
        after_release_probe(s, release, false) == Some(
            (
                in_phase(s, PhaseView::Downloading { version: release.version }),
                ActionView::Download {
                    url: release.assets[i].download_url,
                    dir: version_dir_spec(s.tool_id, release.version),
                },
            ),
        ),
{
    lemma_first_named_unique(
        release.assets,
        asset_name_spec(s.platform, release.version),
        i,
    );
}

/// Where the binary of the latest release is installed already, the attempt
/// ends with its path straight after the probe, whatever the release holds:
/// nothing is downloaded, unpacked or removed, and the path is cached.
pub proof fn lemma_installed_binary_is_kept(s: ProvisionerView, release: ReleaseView)
    requires
        s.phase is LookingUp,
    ensures
        after_release_probe(s, release, true) == Some(
            (
                ProvisionerView {
                    cached_path: Some(binary_path_spec(s.tool_id, release.version, s.platform)),
                    phase: PhaseView::Idle,
                    ..s
                },
                ActionView::Finish {
                    path: binary_path_spec(s.tool_id, release.version, s.platform),
                    cleanup_error: None,
                },
            ),
        ),
{
}

/// The state and the action after `n` removals in a row have succeeded.
pub open spec fn after_removals(start: (ProvisionerView, ActionView), n: nat) -> Option<
    (ProvisionerView, ActionView),
>
    decreases n,
{
    if n == 0 {
        Some(start)
    } else {
        match after_removals(start, (n - 1) as nat) {
            Some((s, _)) => step_spec(s, EventView::Removed),
            None => None,
        }
    }
}

/// The cleanup after an install. Of a listing that ended without failure,
/// the entries other than the installed version's are removed one after the
/// other, in the order of the listing, each by its path under the tool's
/// root; once the last of them is gone the attempt ends with the binary's
/// path. The version's own directory is not among those removed.
pub proof fn lemma_cleanup_removes_stale(
    s: ProvisionerView,
    version: Seq<char>,
    names: Seq<Seq<char>>,
    k: nat,
)
    requires
        s.phase == (PhaseView::Listing { version }),
        k <= stale_entries_spec(names, version).len(),
    ensures
        !stale_entries_spec(names, version).contains(version),
        step_spec(s, EventView::Listed { names, error: None }) matches Some(start)
            && after_removals(start, k) == Some(
            cleanup_spec(s, version, stale_entries_spec(names, version).skip(k as int), None),
        ),
        k < stale_entries_spec(names, version).len() ==> cleanup_spec(
            s,
            version,
            stale_entries_spec(names, version).skip(k as int),
            None,
        ).1 == (ActionView::RemoveDir {
            path: entry_path_spec(s.tool_id, stale_entries_spec(names, version)[k as int]),
        }),
        k == stale_entries_spec(names, version).len() ==> cleanup_spec(
            s,
            version,
            stale_entries_spec(names, version).skip(k as int),
            None,
        ).1 == (ActionView::Finish {
            path: binary_path_spec(s.tool_id, version, s.platform),
            cleanup_error: None,
        }),
    decreases k,
{
    let stale = stale_entries_spec(names, version);
    lemma_stale_entries(names, version, version);
    if k == 0 {
        assert(stale.skip(0) =~= stale);
    } else {
        lemma_cleanup_removes_stale(s, version, names, (k - 1) as nat);
        assert(stale.skip(k - 1).skip(1) =~= stale.skip(k as int));
    }
}

/// A cleanup that fails does not undo the install: the attempt still ends
/// with the binary's path, which is cached, and the failure is reported
/// beside it.
pub proof fn lemma_failed_cleanup_keeps_install(
    s: ProvisionerView,
    version: Seq<char>,
    pending: Seq<Seq<char>>,
    listing_error: Option<Seq<char>>,
    message: Seq<char>,
)
    requires
        s.phase == (PhaseView::Cleaning { version, pending, listing_error }),
    ensures
        step_spec(s, EventView::RemoveFailed { message }) == Some(
            (
                ProvisionerView {
                    cached_path: Some(binary_path_spec(s.tool_id, version, s.platform)),
                    phase: PhaseView::Idle,
                    ..s
                },
                ActionView::Finish {
                    path: binary_path_spec(s.tool_id, version, s.platform),
                    cleanup_error: Some(
                        ProvisionErrorView { kind: ErrorKind::Cleanup, message },
                    ),
                },
            ),
        ),
{
}

/// A failure caches nothing: an attempt that ends in `Fail` leaves the cached
/// path as it was. An attempt that ends well caches the very path that it
/// hands out. Either way no attempt is under way afterwards.
pub proof fn lemma_failure_caches_nothing(s: ProvisionerView, e: EventView)
    ensures
        step_spec(s, e) matches Some((next, action)) ==> (action is Fail ==> next.cached_path
            == s.cached_path && next.phase is Idle),
        step_spec(s, e) matches Some((next, action)) ==> (action is Finish ==> next.cached_path
            == Some(action->Finish_path) && next.phase is Idle),
        step_spec(s, e) matches Some((next, action)) ==> (action is UseCached ==> next.cached_path
            == Some(action->UseCached_path) && next.phase is Idle),
{
}

/// A listing that broke off does not undo the install either: what it did
/// list is cleaned, and with nothing stale among the names it gave the attempt
/// ends at once with the binary's path and the listing's failure beside it.
pub proof fn lemma_failed_listing_keeps_install(
    s: ProvisionerView,
    version: Seq<char>,
    names: Seq<Seq<char>>,
    message: Seq<char>,
)
    requires
        s.phase == (PhaseView::Listing { version }),
        stale_entries_spec(names, version).len() == 0,
    ensures
        step_spec(s, EventView::Listed { names, error: Some(message) }) == Some(
            (
                ProvisionerView {
                    cached_path: Some(binary_path_spec(s.tool_id, version, s.platform)),
                    phase: PhaseView::Idle,
                    ..s
                },
                ActionView::Finish {
                    path: binary_path_spec(s.tool_id, version, s.platform),
                    cleanup_error: Some(
                        ProvisionErrorView { kind: ErrorKind::Cleanup, message },
                    ),
                },
            ),
        ),
{
}

/// Which failure ends an attempt: each kind comes with the one outcome that
/// it names, and carries that outcome's message.
pub proof fn lemma_failure_kinds(s: ProvisionerView, e: EventView)
    ensures
        match step_spec(s, e) {
            Some((_, ActionView::Fail { error })) => match e {
                EventView::ReleaseLookupFailed { message } => error == (ProvisionErrorView {
                    kind: ErrorKind::ReleaseLookup,
                    message,
                }),
                EventView::DownloadFailed { message } => error == (ProvisionErrorView {
                    kind: ErrorKind::Download,
                    message,
                }),
                EventView::PermissionFailed { message } => error == (ProvisionErrorView {
                    kind: ErrorKind::Permission,
                    message,
                }),
                EventView::FileProbed { is_file } => !is_file && error == (ProvisionErrorView {
                    kind: ErrorKind::AssetNotFound,
                    message: asset_not_found_message(),
                }),
                _ => false,
            },
            Some((_, ActionView::Finish { cleanup_error: Some(error), .. })) => error.kind
                == ErrorKind::Cleanup,
            _ => true,
        },
{
}

/// What holds of every state that an attempt can reach: while stale entries
/// are removed, one is always in turn, and the installed version is none of
/// those that wait.
pub open spec fn cleanup_spares_version(s: ProvisionerView) -> bool {
    match s.phase {
        PhaseView::Cleaning { version, pending, .. } => pending.len() > 0 && !pending.contains(
            version,
        ),
        _ => true,
    }
}

/// Starting an attempt and every step of it keep `cleanup_spares_version`.
pub proof fn lemma_cleanup_spares_version_is_kept(
    s: ProvisionerView,
    e: EventView,
    tool_id: Seq<char>,
    platform: PlatformKey,
)
    requires
        cleanup_spares_version(s),
    ensures
        cleanup_spares_version(begin_spec(s, tool_id, platform).0),
        match step_spec(s, e) {
            Some((next, _)) => cleanup_spares_version(next),
            None => true,
        },
{
    match (s.phase, e) {
        (PhaseView::Listing { version }, EventView::Listed { names, error }) => {
            lemma_stale_entries(names, version, version);
        },
        _ => {},
    }
}

/// The directory of the installed version is never removed: whenever a step
/// asks for a removal, it is that of a listed entry whose name is not the
/// version's.
pub proof fn lemma_version_is_never_removed(s: ProvisionerView, e: EventView)
    requires
        cleanup_spares_version(s),
    ensures
        match step_spec(s, e) {
            Some((next, ActionView::RemoveDir { path })) => match next.phase {
                PhaseView::Cleaning { version, pending, .. } => pending.len() > 0 && pending[0]
                    != version && path == entry_path_spec(s.tool_id, pending[0]),
                _ => false,
            },
            _ => true,
        },
{
    lemma_cleanup_spares_version_is_kept(s, e, s.tool_id, s.platform);
}

/// No path is handed out unchecked. An attempt ends with a path only when a
/// probe has just found a file at that path, or when that path is the binary
/// of the version whose cleanup was under way. The cached path is handed out
/// only by the probe of that very path.
pub proof fn lemma_finish_is_earned(s: ProvisionerView, e: EventView)
    ensures
        match step_spec(s, e) {
            Some((next, ActionView::UseCached { path })) => e == (EventView::FileProbed {
                is_file: true,
            }) && s.phase == (PhaseView::ProbingCache { path }),
            Some((next, ActionView::Finish { path, cleanup_error })) => match s.phase {
                PhaseView::ProbingBinary { release } => e == (EventView::FileProbed {
                    is_file: true,
                }) && path == binary_path_spec(s.tool_id, release.version, s.platform)
                    && cleanup_error is None,
                PhaseView::Listing { version } => path == binary_path_spec(
                    s.tool_id,
                    version,
                    s.platform,
                ),
                PhaseView::Cleaning { version, .. } => path == binary_path_spec(
                    s.tool_id,
                    version,
                    s.platform,
                ),
                _ => false,
            },
            _ => true,
        },
{
}

/// The install keeps its order. A version is cleaned up after only once its
/// binary was marked executable, that is asked for only once its archive was
/// unpacked, and an archive is fetched only for a release whose binary the
/// probe did not find and which holds the archive.
pub proof fn lemma_install_order(s: ProvisionerView, e: EventView)
    ensures
        match step_spec(s, e) {
            Some((next, _)) => match next.phase {
                PhaseView::Downloading { version } => e == (EventView::FileProbed {
                    is_file: false,
                }) && match s.phase {
                    PhaseView::ProbingBinary { release } => release.version == version
                        && release.wf() && archive_url_spec(release, s.platform) is Some,
                    _ => false,
                },
                PhaseView::FixingPermissions { version } => e == EventView::Downloaded && s.phase
                    == (PhaseView::Downloading { version }),
                PhaseView::Listing { version } => e == EventView::MadeExecutable && s.phase == (
                PhaseView::FixingPermissions { version }),
                PhaseView::Cleaning { version, .. } => match s.phase {
                    PhaseView::Listing { version: installed } => installed == version,
                    PhaseView::Cleaning { version: installed, .. } => installed == version,
                    _ => false,
                },
                _ => true,
            },
            None => true,
        },
{
}

} // verus!
