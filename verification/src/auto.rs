//! The automatic provisioning flow, written as a state machine.
//!
//! The engine never touches the network or the disk itself.  [`start_auto`]
//! and [`step`] return an [`AutoAction`] for the host to perform (probe a
//! file, fetch the release metadata, download, normalize the extracted
//! directory, purge stale installs), and the host hands the outcome back as
//! an [`AutoEvent`].  Every transition is fixed by [`start_rel`] and
//! [`step_rel`], including how the session cache and the installation-status
//! channel change.

use vstd::prelude::*;
use vstd::string::StringExecFns;
use crate::command::{LaunchPlan, auto_args_spec, build_launch_plan};
use crate::dirs::{DirEntry, flatten_plan, nested_spec, cleanup_victims, victims_spec};
use crate::error::{ProvisionError, message_spec};
use crate::paths::{
    version_dir_name,
    join_path,
    stdlib_path,
    parent_dir,
    version_dir_spec,
    join_path_spec,
    stdlib_path_spec,
    parent_dir_spec,
};
use crate::platform::{
    Os,
    Arch,
    binary_name,
    binary_name_spec,
    asset_suffix,
    suffix_spec,
    platform_supported,
};
use crate::release::{Release, select_asset, asset_matches, asset_names};
use crate::session::SessionState;
use crate::text::{views_of, contains_seq};

verus! {

/// Where the binary of a version is expected on disk.
pub open spec fn bin_path_spec(os: Os, version: Seq<char>) -> Seq<char> {
    join_path_spec(version_dir_spec(version), binary_name_spec(os))
}

/// An update for the installation-status side channel.
pub enum Status {
    CheckingForUpdate,
    Downloading,
    Failed(String),
    Cleared,
}

/// What the host must do next.
pub enum AutoAction {
    /// Probe whether a file or directory exists at `path`.
    CheckFile { path: String },
    /// Fetch the latest qualifying release of the upstream project.
    FetchRelease,
    /// Download `url` into `into_dir`, extracting it as an archive.
    Download { url: String, into_dir: String },
    /// List the entries of `dir`.
    ListDir { dir: String },
    /// Normalize the freshly extracted `dir`: when `nested_subdir` is set,
    /// move that subdirectory's children up into `dir` and remove it; when
    /// `mark_executable` is set, set the executable bit on `probe_path`;
    /// then probe whether `probe_path` exists.
    NormalizeAndProbe {
        dir: String,
        nested_subdir: Option<String>,
        mark_executable: bool,
        probe_path: String,
    },
    /// Best-effort delete each directory in `remove_dirs`, then probe
    /// whether `probe_path` exists.
    CleanupAndProbe { remove_dirs: Vec<String>, probe_path: String },
}

/// What the host reports back after performing an action.
pub enum AutoEvent {
    /// Outcome of a file-existence probe.
    FileExists(bool),
    /// Outcome of the release-metadata fetch.
    ReleaseFetched(Result<Release, String>),
    /// Outcome of the download-and-extract.
    DownloadFinished(Result<(), String>),
    /// The entries of the listed directory.
    Listing(Vec<DirEntry>),
}

/// The resolution either continues with another action or is finished.
pub enum NextOp {
    Continue(AutoAction),
    Done(Result<LaunchPlan, ProvisionError>),
}

/// One step's output: an optional status update and what comes next.
pub struct StepOut {
    pub status: Option<Status>,
    pub next: NextOp,
}

/// Where the resolution stands, and what data the next event refers to.
pub enum AutoState {
    /// Awaiting the existence probe of the session-cached binary.
    CacheProbe { path: String },
    /// Awaiting the release metadata.
    AwaitRelease,
    /// Awaiting the existence probe of the fetched version's binary.
    InstalledProbe { release: Release },
    /// Awaiting the download outcome.
    AwaitDownload { version: String, asset_name: String },
    /// Awaiting the listing of the freshly extracted directory.
    AwaitExtractListing { version: String },
    /// Awaiting the post-normalization existence probe of the binary.
    PostInstallProbe { version: String },
    /// Awaiting the listing of the provisioning root, for cleanup.
    AwaitRootListing { version: String },
    /// Awaiting the existence probe of the stdlib directory.
    StdlibProbe { binary_path: String, stdlib: String },
    /// The resolution has produced its result.
    Finished,
}

/// The in-flight automatic resolution.
pub struct AutoResolver {
    pub os: Os,
    pub arch: Arch,
    pub state: AutoState,
}

/// The action reaches the network.
pub open spec fn network_action(a: AutoAction) -> bool {
    a is FetchRelease || a is Download
}

/// Which event each state awaits.
pub open spec fn expects(state: AutoState, ev: AutoEvent) -> bool {
    match state {
        AutoState::CacheProbe { .. } => ev is FileExists,
        AutoState::AwaitRelease => ev is ReleaseFetched,
        AutoState::InstalledProbe { .. } => ev is FileExists,
        AutoState::AwaitDownload { .. } => ev is DownloadFinished,
        AutoState::AwaitExtractListing { .. } => ev is Listing,
        AutoState::PostInstallProbe { .. } => ev is FileExists,
        AutoState::AwaitRootListing { .. } => ev is Listing,
        AutoState::StdlibProbe { .. } => ev is FileExists,
        AutoState::Finished => false,
    }
}

/// The output fails with exactly `e`: the error is returned and its message
/// is mirrored to the status channel.
pub open spec fn failed_with(out: StepOut, e: ProvisionError) -> bool {
    &&& out.status matches Some(s) && s matches Status::Failed(m) && m@ == message_spec(e)
    &&& out.next matches NextOp::Done(res) && res matches Err(e2) && e2 == e
}

/// How a resolution begins.  A session that remembers a binary path is
/// probed first, without any status update; otherwise the engine reports
/// `CheckingForUpdate` and asks for the release metadata.
pub open spec fn start_rel(
    os: Os,
    arch: Arch,
    session: SessionState,
    r: AutoResolver,
    out: StepOut,
) -> bool {
    &&& r.os == os && r.arch == arch
    &&& match session.cached_binary_path {
        Some(p) => {
            &&& r.state matches AutoState::CacheProbe { path } && path@ == p@
            &&& out.status is None
            &&& out.next matches NextOp::Continue(a) && a matches AutoAction::CheckFile {
                path: q,
            } && q@ == p@
        },
        None => {
            &&& r.state is AwaitRelease
            &&& out.status matches Some(s) && s is CheckingForUpdate
            &&& out.next matches NextOp::Continue(a) && a is FetchRelease
        },
    }
}

/// The transition relation of the automatic flow: what each event does to
/// the state, the session cache, the status channel, and what the host is
/// asked to do next.
pub open spec fn step_rel(
    pre: AutoResolver,
    sess0: SessionState,
    ev: AutoEvent,
    post: AutoResolver,
    sess1: SessionState,
    out: StepOut,
) -> bool {
    &&& post.os == pre.os && post.arch == pre.arch
    &&& match (pre.state, ev) {
        (AutoState::CacheProbe { path }, AutoEvent::FileExists(exists)) => {
            if exists {
                // The cached binary is still there: go straight to the
                // stdlib probe, with no network work and no cache change.
                &&& sess1 == sess0
                &&& post.state matches AutoState::StdlibProbe { binary_path, stdlib }
                    && binary_path@ == path@
                    && stdlib@ == stdlib_path_spec(parent_dir_spec(path@))
                &&& out.status is None
                &&& out.next matches NextOp::Continue(a) && a matches AutoAction::CheckFile {
                    path: q,
                } && q@ == stdlib_path_spec(parent_dir_spec(path@))
            } else {
                // Stale cache: drop both fields and fall through to a full
                // resolution.
                &&& sess1.cached_binary_path is None && sess1.cached_version is None
                &&& post.state is AwaitRelease
                &&& out.status matches Some(s) && s is CheckingForUpdate
                &&& out.next matches NextOp::Continue(a) && a is FetchRelease
            }
        },
        (AutoState::AwaitRelease, AutoEvent::ReleaseFetched(res)) => match res {
            Ok(release) => {
                &&& sess1 == sess0
                &&& post.state matches AutoState::InstalledProbe { release: stored }
                    && stored == release
                &&& out.status is None
                &&& out.next matches NextOp::Continue(a) && a matches AutoAction::CheckFile {
                    path: q,
                } && q@ == bin_path_spec(pre.os, release.version@)
            },
            Err(cause) => {
                &&& sess1 == sess0
                &&& post.state is Finished
                &&& failed_with(out, ProvisionError::ReleaseFetchFailed { cause })
            },
        },
        (AutoState::InstalledProbe { release }, AutoEvent::FileExists(exists)) => {
            if exists {
                // This version is already installed: remember it and skip
                // straight to command building.
                &&& sess1.cached_binary_path matches Some(p)
                    && p@ == bin_path_spec(pre.os, release.version@)
                &&& sess1.cached_version matches Some(v) && v@ == release.version@
                &&& post.state matches AutoState::StdlibProbe { binary_path, stdlib }
                    && binary_path@ == bin_path_spec(pre.os, release.version@)
                    && stdlib@ == stdlib_path_spec(version_dir_spec(release.version@))
                &&& out.status matches Some(s) && s is Cleared
                &&& out.next matches NextOp::Continue(a) && a matches AutoAction::CheckFile {
                    path: q,
                } && q@ == stdlib_path_spec(version_dir_spec(release.version@))
            } else if !platform_supported(pre.os, pre.arch) {
                &&& sess1 == sess0
                &&& post.state is Finished
                &&& failed_with(
                    out,
                    ProvisionError::UnsupportedPlatform { os: pre.os, arch: pre.arch },
                )
            } else if forall|j: int| 0 <= j < release.assets@.len()
                ==> !contains_seq(#[trigger] release.assets@[j].name@, suffix_spec(pre.os, pre.arch)) {
                // No artifact for this platform: fail, enumerating every
                // available asset name.
                &&& sess1 == sess0
                &&& post.state is Finished
                &&& out.next matches NextOp::Done(res2) && res2 matches Err(e)
                    && e matches ProvisionError::NoMatchingAsset { suffix, version, available }
                    && suffix@ == suffix_spec(pre.os, pre.arch)
                    && version@ == release.version@
                    && views_of(available@) == asset_names(release.assets@)
                    && (out.status matches Some(s) && s matches Status::Failed(m)
                        && m@ == message_spec(e))
            } else {
                // Download the first asset whose name contains the suffix.
                &&& sess1 == sess0
                &&& out.status matches Some(s) && s is Downloading
                &&& post.state matches AutoState::AwaitDownload { version: v, asset_name: an }
                    && v@ == release.version@
                    && (out.next matches NextOp::Continue(a) && a matches AutoAction::Download {
                        url,
                        into_dir,
                    } && into_dir@ == version_dir_spec(release.version@)
                    && exists|i: int|
                        asset_matches(release.assets@, suffix_spec(pre.os, pre.arch), i)
                        && (forall|j: int| 0 <= j < i
                            ==> !contains_seq(#[trigger] release.assets@[j].name@,
                                suffix_spec(pre.os, pre.arch)))
                        && an@ == #[trigger] release.assets@[i].name@
                        && url@ == release.assets@[i].download_url@)
            }
        },
        (AutoState::AwaitDownload { version, asset_name }, AutoEvent::DownloadFinished(res)) => match res {
            Ok(_) => {
                &&& sess1 == sess0
                &&& post.state matches AutoState::AwaitExtractListing { version: v }
                    && v@ == version@
                &&& out.status is None
                &&& out.next matches NextOp::Continue(a) && a matches AutoAction::ListDir { dir }
                    && dir@ == version_dir_spec(version@)
            },
            Err(cause) => {
                &&& sess1 == sess0
                &&& post.state is Finished
                &&& failed_with(out, ProvisionError::DownloadFailed { asset_name, cause })
            },
        },
        (AutoState::AwaitExtractListing { version }, AutoEvent::Listing(entries)) => {
            &&& sess1 == sess0
            &&& post.state matches AutoState::PostInstallProbe { version: v } && v@ == version@
            &&& out.status is None
            &&& out.next matches NextOp::Continue(a) && a matches AutoAction::NormalizeAndProbe {
                dir,
                nested_subdir,
                mark_executable,
                probe_path,
            } && dir@ == version_dir_spec(version@)
                && (if nested_spec(entries@) {
                    nested_subdir matches Some(n) && n@ == entries@[0].name@
                } else {
                    nested_subdir is None
                })
                && mark_executable == (pre.os != Os::Windows)
                && probe_path@ == bin_path_spec(pre.os, version@)
        },
        (AutoState::PostInstallProbe { version }, AutoEvent::FileExists(exists)) => {
            if exists {
                &&& sess1 == sess0
                &&& post.state matches AutoState::AwaitRootListing { version: v }
                    && v@ == version@
                &&& out.status matches Some(s) && s is Cleared
                &&& out.next matches NextOp::Continue(a) && a matches AutoAction::ListDir { dir }
                    && dir@ == "."@
            } else {
                &&& sess1 == sess0
                &&& post.state is Finished
                &&& out.next matches NextOp::Done(res2) && res2 matches Err(e)
                    && e matches ProvisionError::BinaryMissingAfterExtraction {
                        expected_path,
                        binary_name: bn,
                    }
                    && expected_path@ == bin_path_spec(pre.os, version@)
                    && bn@ == binary_name_spec(pre.os)
                    && (out.status matches Some(s) && s matches Status::Failed(m)
                        && m@ == message_spec(e))
            }
        },
        (AutoState::AwaitRootListing { version }, AutoEvent::Listing(entries)) => {
            // A verified install: remember it, purge every stale sibling
            // version directory (never the one just installed), and probe
            // for the stdlib directory.
            &&& sess1.cached_binary_path matches Some(p)
                && p@ == bin_path_spec(pre.os, version@)
            &&& sess1.cached_version matches Some(v) && v@ == version@
            &&& post.state matches AutoState::StdlibProbe { binary_path, stdlib }
                && binary_path@ == bin_path_spec(pre.os, version@)
                && stdlib@ == stdlib_path_spec(version_dir_spec(version@))
            &&& out.status is None
            &&& out.next matches NextOp::Continue(a) && a matches AutoAction::CleanupAndProbe {
                remove_dirs,
                probe_path,
            } && views_of(remove_dirs@) == victims_spec(entries@, version_dir_spec(version@))
                && probe_path@ == stdlib_path_spec(version_dir_spec(version@))
        },
        (AutoState::StdlibProbe { binary_path, stdlib }, AutoEvent::FileExists(exists)) => {
            &&& sess1 == sess0
            &&& post.state is Finished
            &&& out.status is None
            &&& out.next matches NextOp::Done(res2) && res2 matches Ok(plan)
                && plan.command@ == binary_path@
                && views_of(plan.args@) == auto_args_spec(stdlib@, exists)
        },
        _ => false,
    }
}

/// Begins an automatic resolution for the given platform and session.
pub fn start_auto(os: Os, arch: Arch, session: &SessionState) -> (r: (AutoResolver, StepOut))
    ensures
        start_rel(os, arch, *session, r.0, r.1),
{
    match &session.cached_binary_path {
        Some(p) => {
            let path = p.clone();
            let probe = p.clone();
            (
                AutoResolver { os, arch, state: AutoState::CacheProbe { path } },
                StepOut {
                    status: None,
                    next: NextOp::Continue(AutoAction::CheckFile { path: probe }),
                },
            )
        },
        None => (
            AutoResolver { os, arch, state: AutoState::AwaitRelease },
            StepOut {
                status: Some(Status::CheckingForUpdate),
                next: NextOp::Continue(AutoAction::FetchRelease),
            },
        ),
    }
}

/// Performs one transition of the automatic flow.
pub fn step(r: AutoResolver, session: &mut SessionState, event: AutoEvent) -> (out: (
    AutoResolver,
    StepOut,
))
    requires
        expects(r.state, event),
    ensures
        step_rel(r, *old(session), event, out.0, *final(session), out.1),
{
    let AutoResolver { os, arch, state } = r;
    match (state, event) {
        (AutoState::CacheProbe { path }, AutoEvent::FileExists(exists)) => {
            if exists {
                let parent = parent_dir(path.as_str());
                let stdlib = stdlib_path(parent.as_str());
                let probe = stdlib.clone();
                (
                    AutoResolver {
                        os,
                        arch,
                        state: AutoState::StdlibProbe { binary_path: path, stdlib },
                    },
                    StepOut {
                        status: None,
                        next: NextOp::Continue(AutoAction::CheckFile { path: probe }),
                    },
                )
            } else {
                session.cached_binary_path = None;
                session.cached_version = None;
                (
                    AutoResolver { os, arch, state: AutoState::AwaitRelease },
                    StepOut {
                        status: Some(Status::CheckingForUpdate),
                        next: NextOp::Continue(AutoAction::FetchRelease),
                    },
                )
            }
        },
        (AutoState::AwaitRelease, AutoEvent::ReleaseFetched(res)) => match res {
            Ok(release) => {
                let vdir = version_dir_name(release.version.as_str());
                let bname = binary_name(os);
                let bpath = join_path(vdir.as_str(), bname.as_str());
                (
                    AutoResolver { os, arch, state: AutoState::InstalledProbe { release } },
                    StepOut {
                        status: None,
                        next: NextOp::Continue(AutoAction::CheckFile { path: bpath }),
                    },
                )
            },
            Err(cause) => {
                let err = ProvisionError::ReleaseFetchFailed { cause };
                let msg = err.message();
                (
                    AutoResolver { os, arch, state: AutoState::Finished },
                    StepOut { status: Some(Status::Failed(msg)), next: NextOp::Done(Err(err)) },
                )
            },
        },
        (AutoState::InstalledProbe { release }, AutoEvent::FileExists(exists)) => {
            let Release { version, assets } = release;
            let vdir = version_dir_name(version.as_str());
            if exists {
                let bname = binary_name(os);
                let bpath = join_path(vdir.as_str(), bname.as_str());
                session.cached_binary_path = Some(bpath.clone());
                session.cached_version = Some(version.clone());
                let stdlib = stdlib_path(vdir.as_str());
                let probe = stdlib.clone();
                (
                    AutoResolver {
                        os,
                        arch,
                        state: AutoState::StdlibProbe { binary_path: bpath, stdlib },
                    },
                    StepOut {
                        status: Some(Status::Cleared),
                        next: NextOp::Continue(AutoAction::CheckFile { path: probe }),
                    },
                )
            } else {
                match asset_suffix(os, arch) {
                    Err(err) => {
                        let msg = err.message();
                        (
                            AutoResolver { os, arch, state: AutoState::Finished },
                            StepOut {
                                status: Some(Status::Failed(msg)),
                                next: NextOp::Done(Err(err)),
                            },
                        )
                    },
                    Ok(sfx) => {
                        match select_asset(&assets, sfx.as_str(), version.as_str()) {
                            Err(err) => {
                                let msg = err.message();
                                (
                                    AutoResolver { os, arch, state: AutoState::Finished },
                                    StepOut {
                                        status: Some(Status::Failed(msg)),
                                        next: NextOp::Done(Err(err)),
                                    },
                                )
                            },
                            Ok(i) => {
                                let url = assets[i].download_url.clone();
                                let name = assets[i].name.clone();
                                (
                                    AutoResolver {
                                        os,
                                        arch,
                                        state: AutoState::AwaitDownload {
                                            version,
                                            asset_name: name,
                                        },
                                    },
                                    StepOut {
                                        status: Some(Status::Downloading),
                                        next: NextOp::Continue(AutoAction::Download {
                                            url,
                                            into_dir: vdir,
                                        }),
                                    },
                                )
                            },
                        }
                    },
                }
            }
        },
        (AutoState::AwaitDownload { version, asset_name }, AutoEvent::DownloadFinished(res)) => {
            match res {
                Ok(_) => {
                    let vdir = version_dir_name(version.as_str());
                    (
                        AutoResolver {
                            os,
                            arch,
                            state: AutoState::AwaitExtractListing { version },
                        },
                        StepOut {
                            status: None,
                            next: NextOp::Continue(AutoAction::ListDir { dir: vdir }),
                        },
                    )
                },
                Err(cause) => {
                    let err = ProvisionError::DownloadFailed { asset_name, cause };
                    let msg = err.message();
                    (
                        AutoResolver { os, arch, state: AutoState::Finished },
                        StepOut {
                            status: Some(Status::Failed(msg)),
                            next: NextOp::Done(Err(err)),
                        },
                    )
                },
            }
        },
        (AutoState::AwaitExtractListing { version }, AutoEvent::Listing(entries)) => {
            let vdir = version_dir_name(version.as_str());
            let bname = binary_name(os);
            let bpath = join_path(vdir.as_str(), bname.as_str());
            let nested = flatten_plan(&entries);
            let mark = os != Os::Windows;
            (
                AutoResolver { os, arch, state: AutoState::PostInstallProbe { version } },
                StepOut {
                    status: None,
                    next: NextOp::Continue(AutoAction::NormalizeAndProbe {
                        dir: vdir,
                        nested_subdir: nested,
                        mark_executable: mark,
                        probe_path: bpath,
                    }),
                },
            )
        },
        (AutoState::PostInstallProbe { version }, AutoEvent::FileExists(exists)) => {
            if exists {
                (
                    AutoResolver { os, arch, state: AutoState::AwaitRootListing { version } },
                    StepOut {
                        status: Some(Status::Cleared),
                        next: NextOp::Continue(AutoAction::ListDir {
                            dir: String::from_str("."),
                        }),
                    },
                )
            } else {
                let vdir = version_dir_name(version.as_str());
                let bname = binary_name(os);
                let bpath = join_path(vdir.as_str(), bname.as_str());
                let err = ProvisionError::BinaryMissingAfterExtraction {
                    expected_path: bpath,
                    binary_name: bname,
                };
                let msg = err.message();
                (
                    AutoResolver { os, arch, state: AutoState::Finished },
                    StepOut { status: Some(Status::Failed(msg)), next: NextOp::Done(Err(err)) },
                )
            }
        },
        (AutoState::AwaitRootListing { version }, AutoEvent::Listing(entries)) => {
            let vdir = version_dir_name(version.as_str());
            let bname = binary_name(os);
            let bpath = join_path(vdir.as_str(), bname.as_str());
            let victims = cleanup_victims(&entries, vdir.as_str());
            session.cached_binary_path = Some(bpath.clone());
            session.cached_version = Some(version.clone());
            let stdlib = stdlib_path(vdir.as_str());
            let probe = stdlib.clone();
            (
                AutoResolver {
                    os,
                    arch,
                    state: AutoState::StdlibProbe { binary_path: bpath, stdlib },
                },
                StepOut {
                    status: None,
                    next: NextOp::Continue(AutoAction::CleanupAndProbe {
                        remove_dirs: victims,
                        probe_path: probe,
                    }),
                },
            )
        },
        (AutoState::StdlibProbe { binary_path, stdlib }, AutoEvent::FileExists(exists)) => {
            let plan = build_launch_plan(binary_path.as_str(), stdlib.as_str(), exists);
            (
                AutoResolver { os, arch, state: AutoState::Finished },
                StepOut { status: None, next: NextOp::Done(Ok(plan)) },
            )
        },
        _ => unreached(),
    }
}

/// A session that still remembers a valid binary resolves without touching
/// the network: the start and the first transition only probe files, the
/// second transition finishes successfully with the cached path as the
/// command, and the session is left exactly as it was.
pub proof fn lemma_cached_hit_no_network(
    os: Os,
    arch: Arch,
    cached: String,
    sess0: SessionState,
    r0: AutoResolver,
    out0: StepOut,
    sess1: SessionState,
    r1: AutoResolver,
    out1: StepOut,
    stdlib_exists: bool,
    sess2: SessionState,
    r2: AutoResolver,
    out2: StepOut,
)
    requires
        sess0.cached_binary_path == Some(cached),
        start_rel(os, arch, sess0, r0, out0),
        step_rel(r0, sess0, AutoEvent::FileExists(true), r1, sess1, out1),
        step_rel(r1, sess1, AutoEvent::FileExists(stdlib_exists), r2, sess2, out2),
    ensures
        out0.next matches NextOp::Continue(a) && !network_action(a),
        out1.next matches NextOp::Continue(a) && !network_action(a),
        out2.next matches NextOp::Done(res) && res matches Ok(plan) && plan.command@ == cached@,
        sess2 == sess0,
{
}

} // verus!
