use flang_provision::auto::{start_auto, step, AutoAction, AutoEvent, NextOp, Status, StepOut};
use flang_provision::command::plan_to_command;
use flang_provision::dirs::DirEntry;
use flang_provision::error::ProvisionError;
use flang_provision::platform::{Arch, Os};
use flang_provision::release::{Asset, Release};
use flang_provision::session::{new_session, SessionState};

fn release_fixture() -> Release {
    Release {
        version: "1.0.0".to_string(),
        assets: vec![
            Asset {
                name: "flang-1.0.0-win-x64.zip".to_string(),
                download_url: "https://example.com/win".to_string(),
            },
            Asset {
                name: "flang-1.0.0-linux-x64.zip".to_string(),
                download_url: "https://example.com/linux".to_string(),
            },
        ],
    }
}

fn entry(name: &str, is_dir: bool) -> DirEntry {
    DirEntry { name: name.to_string(), is_dir }
}

fn continue_action(out: StepOut) -> AutoAction {
    match out.next {
        NextOp::Continue(a) => a,
        NextOp::Done(_) => panic!("expected the flow to continue"),
    }
}

#[test]
fn fresh_install_runs_the_whole_flow() {
    let mut session: SessionState = new_session();

    let (r, out) = start_auto(Os::Linux, Arch::X8664, &session);
    assert!(matches!(out.status, Some(Status::CheckingForUpdate)));
    assert!(matches!(continue_action(out), AutoAction::FetchRelease));

    // The release arrives; the engine first checks for a local install.
    let (r, out) = step(r, &mut session, AutoEvent::ReleaseFetched(Ok(release_fixture())));
    assert!(out.status.is_none());
    match continue_action(out) {
        AutoAction::CheckFile { path } => assert_eq!(path, "flang-1.0.0/flang"),
        _ => panic!("expected a file probe"),
    }

    // Not installed yet: the matching asset is downloaded.
    let (r, out) = step(r, &mut session, AutoEvent::FileExists(false));
    assert!(matches!(out.status, Some(Status::Downloading)));
    match continue_action(out) {
        AutoAction::Download { url, into_dir } => {
            assert_eq!(url, "https://example.com/linux");
            assert_eq!(into_dir, "flang-1.0.0");
        }
        _ => panic!("expected a download"),
    }

    // Extraction finished; the engine inspects the extracted directory.
    let (r, out) = step(r, &mut session, AutoEvent::DownloadFinished(Ok(())));
    match continue_action(out) {
        AutoAction::ListDir { dir } => assert_eq!(dir, "flang-1.0.0"),
        _ => panic!("expected a listing"),
    }

    // The archive wrapped its payload in a tag-named directory.
    let listing = vec![entry("v1.0.0", true)];
    let (r, out) = step(r, &mut session, AutoEvent::Listing(listing));
    match continue_action(out) {
        AutoAction::NormalizeAndProbe { dir, nested_subdir, mark_executable, probe_path } => {
            assert_eq!(dir, "flang-1.0.0");
            assert_eq!(nested_subdir, Some("v1.0.0".to_string()));
            assert!(mark_executable);
            assert_eq!(probe_path, "flang-1.0.0/flang");
        }
        _ => panic!("expected normalization"),
    }

    // The binary is present after normalization: cleanup begins.
    let (r, out) = step(r, &mut session, AutoEvent::FileExists(true));
    assert!(matches!(out.status, Some(Status::Cleared)));
    match continue_action(out) {
        AutoAction::ListDir { dir } => assert_eq!(dir, "."),
        _ => panic!("expected the root listing"),
    }

    // Stale versions are purged; the just-installed one is kept.
    let root = vec![entry("flang-0.9.0", true), entry("flang-1.0.0", true), entry("other-data", true)];
    let (r, out) = step(r, &mut session, AutoEvent::Listing(root));
    match continue_action(out) {
        AutoAction::CleanupAndProbe { remove_dirs, probe_path } => {
            assert_eq!(remove_dirs, vec!["flang-0.9.0".to_string()]);
            assert_eq!(probe_path, "flang-1.0.0/stdlib");
        }
        _ => panic!("expected cleanup"),
    }
    assert_eq!(session.cached_binary_path, Some("flang-1.0.0/flang".to_string()));
    assert_eq!(session.cached_version, Some("1.0.0".to_string()));

    // The stdlib directory exists: the final command points at it.
    let (_, out) = step(r, &mut session, AutoEvent::FileExists(true));
    match out.next {
        NextOp::Done(Ok(plan)) => {
            assert_eq!(plan.command, "flang-1.0.0/flang");
            assert_eq!(
                plan.args,
                vec![
                    "--lsp".to_string(),
                    "--stdlib-path".to_string(),
                    "flang-1.0.0/stdlib".to_string()
                ]
            );
            let env = vec![("K".to_string(), "V".to_string())];
            let cmd = plan_to_command(plan, env.clone());
            assert_eq!(cmd.env, env);
        }
        _ => panic!("expected a successful resolution"),
    }
}

#[test]
fn cached_binary_resolves_without_network_actions() {
    let mut session = SessionState {
        cached_binary_path: Some("flang-1.0.0/flang".to_string()),
        cached_version: Some("1.0.0".to_string()),
    };

    let (r, out) = start_auto(Os::Linux, Arch::X8664, &session);
    assert!(out.status.is_none());
    match continue_action(out) {
        AutoAction::CheckFile { path } => assert_eq!(path, "flang-1.0.0/flang"),
        _ => panic!("expected a probe of the cached path"),
    }

    let (r, out) = step(r, &mut session, AutoEvent::FileExists(true));
    assert!(out.status.is_none());
    match continue_action(out) {
        AutoAction::CheckFile { path } => assert_eq!(path, "flang-1.0.0/stdlib"),
        _ => panic!("expected a stdlib probe, not network work"),
    }

    let (_, out) = step(r, &mut session, AutoEvent::FileExists(false));
    match out.next {
        NextOp::Done(Ok(plan)) => {
            assert_eq!(plan.command, "flang-1.0.0/flang");
            assert_eq!(plan.args, vec!["--lsp".to_string()]);
        }
        _ => panic!("expected a successful resolution"),
    }
    assert_eq!(session.cached_binary_path, Some("flang-1.0.0/flang".to_string()));
    assert_eq!(session.cached_version, Some("1.0.0".to_string()));
}

#[test]
fn stale_cache_is_cleared_and_resolution_starts_over() {
    let mut session = SessionState {
        cached_binary_path: Some("flang-0.5.0/flang".to_string()),
        cached_version: Some("0.5.0".to_string()),
    };
    let (r, out) = start_auto(Os::Mac, Arch::Aarch64, &session);
    assert!(matches!(continue_action(out), AutoAction::CheckFile { .. }));

    let (_, out) = step(r, &mut session, AutoEvent::FileExists(false));
    assert!(session.cached_binary_path.is_none());
    assert!(session.cached_version.is_none());
    assert!(matches!(out.status, Some(Status::CheckingForUpdate)));
    assert!(matches!(continue_action(out), AutoAction::FetchRelease));
}

#[test]
fn already_installed_version_skips_the_download() {
    let mut session = new_session();
    let (r, out) = start_auto(Os::Mac, Arch::X8664, &session);
    assert!(matches!(continue_action(out), AutoAction::FetchRelease));

    let (r, out) = step(r, &mut session, AutoEvent::ReleaseFetched(Ok(release_fixture())));
    assert!(matches!(continue_action(out), AutoAction::CheckFile { .. }));

    // The binary of this version already sits on disk.
    let (r, out) = step(r, &mut session, AutoEvent::FileExists(true));
    assert!(matches!(out.status, Some(Status::Cleared)));
    match continue_action(out) {
        AutoAction::CheckFile { path } => assert_eq!(path, "flang-1.0.0/stdlib"),
        _ => panic!("expected a stdlib probe"),
    }
    assert_eq!(session.cached_binary_path, Some("flang-1.0.0/flang".to_string()));
    assert_eq!(session.cached_version, Some("1.0.0".to_string()));

    let (_, out) = step(r, &mut session, AutoEvent::FileExists(false));
    match out.next {
        NextOp::Done(Ok(plan)) => assert_eq!(plan.command, "flang-1.0.0/flang"),
        _ => panic!("expected a successful resolution"),
    }
}

#[test]
fn release_fetch_failure_is_reported_and_returned() {
    let mut session = new_session();
    let (r, _) = start_auto(Os::Linux, Arch::X8664, &session);
    let (_, out) = step(
        r,
        &mut session,
        AutoEvent::ReleaseFetched(Err("connection refused".to_string())),
    );
    match &out.status {
        Some(Status::Failed(m)) => {
            assert_eq!(m, "Failed to fetch latest release: connection refused");
        }
        _ => panic!("expected a Failed status"),
    }
    match out.next {
        NextOp::Done(Err(ProvisionError::ReleaseFetchFailed { cause })) => {
            assert_eq!(cause, "connection refused");
        }
        _ => panic!("expected ReleaseFetchFailed"),
    }
}

#[test]
fn unsupported_platform_fails_in_the_auto_flow() {
    let mut session = new_session();
    let (r, _) = start_auto(Os::Linux, Arch::Aarch64, &session);
    let (r, _) = step(r, &mut session, AutoEvent::ReleaseFetched(Ok(release_fixture())));
    let (_, out) = step(r, &mut session, AutoEvent::FileExists(false));
    match out.next {
        NextOp::Done(Err(ProvisionError::UnsupportedPlatform { os, arch })) => {
            assert_eq!(os, Os::Linux);
            assert_eq!(arch, Arch::Aarch64);
        }
        _ => panic!("expected UnsupportedPlatform"),
    }
}

#[test]
fn missing_asset_fails_with_the_available_names() {
    let mut session = new_session();
    let release = Release {
        version: "2.0.0".to_string(),
        assets: vec![Asset {
            name: "flang-2.0.0-linux-x64.zip".to_string(),
            download_url: "u".to_string(),
        }],
    };
    let (r, _) = start_auto(Os::Windows, Arch::X8664, &session);
    let (r, _) = step(r, &mut session, AutoEvent::ReleaseFetched(Ok(release)));
    let (_, out) = step(r, &mut session, AutoEvent::FileExists(false));
    match out.next {
        NextOp::Done(Err(ProvisionError::NoMatchingAsset { suffix, version, available })) => {
            assert_eq!(suffix, "win-x64");
            assert_eq!(version, "2.0.0");
            assert_eq!(available, vec!["flang-2.0.0-linux-x64.zip".to_string()]);
        }
        _ => panic!("expected NoMatchingAsset"),
    }
}

#[test]
fn download_failure_names_the_asset() {
    let mut session = new_session();
    let (r, _) = start_auto(Os::Linux, Arch::X8664, &session);
    let (r, _) = step(r, &mut session, AutoEvent::ReleaseFetched(Ok(release_fixture())));
    let (r, _) = step(r, &mut session, AutoEvent::FileExists(false));
    let (_, out) = step(
        r,
        &mut session,
        AutoEvent::DownloadFinished(Err("timed out".to_string())),
    );
    match &out.status {
        Some(Status::Failed(m)) => {
            assert_eq!(m, "Failed to download flang-1.0.0-linux-x64.zip: timed out");
        }
        _ => panic!("expected a Failed status"),
    }
    match out.next {
        NextOp::Done(Err(ProvisionError::DownloadFailed { asset_name, cause })) => {
            assert_eq!(asset_name, "flang-1.0.0-linux-x64.zip");
            assert_eq!(cause, "timed out");
        }
        _ => panic!("expected DownloadFailed"),
    }
}

#[test]
fn binary_missing_after_extraction_fails_with_a_hint() {
    let mut session = new_session();
    let (r, _) = start_auto(Os::Windows, Arch::X8664, &session);
    let release = Release {
        version: "1.0.0".to_string(),
        assets: vec![Asset {
            name: "flang-1.0.0-win-x64.zip".to_string(),
            download_url: "u".to_string(),
        }],
    };
    let (r, _) = step(r, &mut session, AutoEvent::ReleaseFetched(Ok(release)));
    let (r, _) = step(r, &mut session, AutoEvent::FileExists(false));
    let (r, out) = step(r, &mut session, AutoEvent::DownloadFinished(Ok(())));
    assert!(matches!(continue_action(out), AutoAction::ListDir { .. }));

    // Flat archive, and no executable-bit marking on Windows.
    let listing = vec![entry("flang.exe", false), entry("README.md", false)];
    let (r, out) = step(r, &mut session, AutoEvent::Listing(listing));
    match continue_action(out) {
        AutoAction::NormalizeAndProbe { nested_subdir, mark_executable, probe_path, .. } => {
            assert_eq!(nested_subdir, None);
            assert!(!mark_executable);
            assert_eq!(probe_path, "flang-1.0.0/flang.exe");
        }
        _ => panic!("expected normalization"),
    }

    let (_, out) = step(r, &mut session, AutoEvent::FileExists(false));
    match out.next {
        NextOp::Done(Err(ProvisionError::BinaryMissingAfterExtraction { expected_path, binary_name })) => {
            assert_eq!(expected_path, "flang-1.0.0/flang.exe");
            assert_eq!(binary_name, "flang.exe");
        }
        _ => panic!("expected BinaryMissingAfterExtraction"),
    }
    assert!(session.cached_binary_path.is_none());
}
