use neocmake::platform::{Architecture, DownloadedFileType, Os};
use neocmake::release::{GithubRelease, ReleaseAsset};
use neocmake::resolver::{keeps_entry, Action, Event, InstallStatus, NeoCMakeExt, Phase};

fn linux_release() -> GithubRelease {
    GithubRelease {
        version: "v0.8.1".to_string(),
        assets: vec![ReleaseAsset {
            name: "neocmakelsp-x86_64-unknown-linux-gnu.tar.gz".to_string(),
            download_url: "https://example.com/linux.tar.gz".to_string(),
        }],
    }
}

fn finished(a: Action) -> Result<String, String> {
    match a {
        Action::Finish(r) => r,
        other => panic!("expected the lookup to end, got {other:?}"),
    }
}

/// Drives a fresh lookup up to the request to check the unpacked binary.
fn up_to_install_check(ext: &mut NeoCMakeExt) {
    assert!(matches!(ext.start(), Action::FindOnPath(ref n) if n == "neocmakelsp"));
    assert!(matches!(
        ext.step(Event::PathLookup(None)),
        Action::ReportStatus(InstallStatus::CheckingForUpdate)
    ));
    assert!(matches!(
        ext.step(Event::Acknowledged),
        Action::FetchLatestRelease(ref repo) if repo == "Decodetalkers/neocmakelsp"
    ));
    assert!(matches!(ext.step(Event::Release(Ok(linux_release()))), Action::QueryPlatform));
    assert!(matches!(
        ext.step(Event::Platform(Os::Linux, Architecture::X8664)),
        Action::CheckIsFile(ref p) if p == "neocmakelsp-v0.8.1/neocmakelsp"
    ));
}

#[test]
fn server_on_search_path_wins() {
    let mut ext = NeoCMakeExt::new();
    ext.start();
    let r = finished(ext.step(Event::PathLookup(Some("/usr/bin/neocmakelsp".to_string()))));
    assert_eq!(r, Ok("/usr/bin/neocmakelsp".to_string()));
    assert!(ext.cached_binary_path.is_none());
    assert!(matches!(ext.phase, Phase::Idle));
}

#[test]
fn remembered_binary_is_reused_while_it_exists() {
    let mut ext = NeoCMakeExt::new();
    ext.cached_binary_path = Some("neocmakelsp-v1/neocmakelsp".to_string());
    ext.start();
    assert!(matches!(
        ext.step(Event::PathLookup(None)),
        Action::CheckIsFile(ref p) if p == "neocmakelsp-v1/neocmakelsp"
    ));
    let r = finished(ext.step(Event::IsFile(true)));
    assert_eq!(r, Ok("neocmakelsp-v1/neocmakelsp".to_string()));
}

#[test]
fn vanished_remembered_binary_leads_to_update_check() {
    let mut ext = NeoCMakeExt::new();
    ext.cached_binary_path = Some("neocmakelsp-v1/neocmakelsp".to_string());
    ext.start();
    ext.step(Event::PathLookup(None));
    assert!(matches!(
        ext.step(Event::IsFile(false)),
        Action::ReportStatus(InstallStatus::CheckingForUpdate)
    ));
}

#[test]
fn release_error_is_passed_on() {
    let mut ext = NeoCMakeExt::new();
    ext.start();
    ext.step(Event::PathLookup(None));
    ext.step(Event::Acknowledged);
    let r = finished(ext.step(Event::Release(Err("rate limited".to_string()))));
    assert_eq!(r, Err("rate limited".to_string()));
    assert!(matches!(ext.phase, Phase::Idle));
}

#[test]
fn unsupported_platform_ends_the_lookup() {
    let mut ext = NeoCMakeExt::new();
    ext.start();
    ext.step(Event::PathLookup(None));
    ext.step(Event::Acknowledged);
    ext.step(Event::Release(Ok(linux_release())));
    let r = finished(ext.step(Event::Platform(Os::Linux, Architecture::X86)));
    assert_eq!(
        r,
        Err("Unsupported platform-arch combination: Os::Linux Architecture::X86".to_string())
    );
}

#[test]
fn missing_asset_ends_the_lookup() {
    let mut ext = NeoCMakeExt::new();
    ext.start();
    ext.step(Event::PathLookup(None));
    ext.step(Event::Acknowledged);
    ext.step(Event::Release(Ok(linux_release())));
    let r = finished(ext.step(Event::Platform(Os::Mac, Architecture::Aarch64)));
    assert_eq!(
        r,
        Err("no asset found matching \"neocmakelsp-universal-apple-darwin.tar.gz\"".to_string())
    );
}

#[test]
fn unpacked_binary_is_used_and_remembered() {
    let mut ext = NeoCMakeExt::new();
    up_to_install_check(&mut ext);
    let r = finished(ext.step(Event::IsFile(true)));
    assert_eq!(r, Ok("neocmakelsp-v0.8.1/neocmakelsp".to_string()));
    assert_eq!(ext.cached_binary_path.as_deref(), Some("neocmakelsp-v0.8.1/neocmakelsp"));
}

#[test]
fn fresh_install_downloads_and_cleans_old_versions() {
    let mut ext = NeoCMakeExt::new();
    up_to_install_check(&mut ext);
    assert!(matches!(
        ext.step(Event::IsFile(false)),
        Action::ReportStatus(InstallStatus::Downloading)
    ));
    match ext.step(Event::Acknowledged) {
        Action::Download { url, dir, file_type } => {
            assert_eq!(url, "https://example.com/linux.tar.gz");
            assert_eq!(dir, "neocmakelsp-v0.8.1");
            assert_eq!(file_type, DownloadedFileType::GzipTar);
        }
        other => panic!("expected a download, got {other:?}"),
    }
    assert!(matches!(
        ext.step(Event::Downloaded(Ok(()))),
        Action::MakeExecutable(ref p) if p == "neocmakelsp-v0.8.1/neocmakelsp"
    ));
    assert!(matches!(ext.step(Event::MadeExecutable(Ok(()))), Action::ListWorkingDir));
    assert!(matches!(ext.step(Event::Listed(Ok(()))), Action::NextEntry));
    let old = Event::Entry(Some(Ok(Some("neocmakelsp-v0.7.0".to_string()))));
    assert!(matches!(ext.step(old), Action::RemoveEntry));
    assert!(matches!(ext.step(Event::Acknowledged), Action::NextEntry));
    let current = Event::Entry(Some(Ok(Some("neocmakelsp-v0.8.1".to_string()))));
    assert!(matches!(ext.step(current), Action::NextEntry));
    assert!(matches!(ext.step(Event::Entry(Some(Ok(None)))), Action::RemoveEntry));
    assert!(matches!(ext.step(Event::Acknowledged), Action::NextEntry));
    assert!(ext.cached_binary_path.is_none());
    let r = finished(ext.step(Event::Entry(None)));
    assert_eq!(r, Ok("neocmakelsp-v0.8.1/neocmakelsp".to_string()));
    assert_eq!(ext.cached_binary_path.as_deref(), Some("neocmakelsp-v0.8.1/neocmakelsp"));
    assert!(matches!(ext.phase, Phase::Idle));
}

#[test]
fn download_failure_is_reported() {
    let mut ext = NeoCMakeExt::new();
    up_to_install_check(&mut ext);
    ext.step(Event::IsFile(false));
    ext.step(Event::Acknowledged);
    let r = finished(ext.step(Event::Downloaded(Err("404".to_string()))));
    assert_eq!(r, Err("failed to download file: 404".to_string()));
    assert!(ext.cached_binary_path.is_none());
}

#[test]
fn make_executable_failure_is_passed_on() {
    let mut ext = NeoCMakeExt::new();
    up_to_install_check(&mut ext);
    ext.step(Event::IsFile(false));
    ext.step(Event::Acknowledged);
    ext.step(Event::Downloaded(Ok(())));
    let r = finished(ext.step(Event::MadeExecutable(Err("denied".to_string()))));
    assert_eq!(r, Err("denied".to_string()));
}

#[test]
fn listing_failures_are_reported() {
    let mut ext = NeoCMakeExt::new();
    up_to_install_check(&mut ext);
    ext.step(Event::IsFile(false));
    ext.step(Event::Acknowledged);
    ext.step(Event::Downloaded(Ok(())));
    ext.step(Event::MadeExecutable(Ok(())));
    let r = finished(ext.step(Event::Listed(Err("no access".to_string()))));
    assert_eq!(r, Err("failed to list working directory no access".to_string()));

    up_to_install_check(&mut ext);
    ext.step(Event::IsFile(false));
    ext.step(Event::Acknowledged);
    ext.step(Event::Downloaded(Ok(())));
    ext.step(Event::MadeExecutable(Ok(())));
    ext.step(Event::Listed(Ok(())));
    let r = finished(ext.step(Event::Entry(Some(Err("io".to_string())))));
    assert_eq!(r, Err("failed to load directory entry io".to_string()));
    assert!(ext.cached_binary_path.is_none());
}

#[test]
fn accepts_only_the_awaited_report() {
    let mut ext = NeoCMakeExt::new();
    assert!(!ext.accepts(&Event::PathLookup(None)));
    ext.start();
    assert!(ext.accepts(&Event::PathLookup(None)));
    assert!(!ext.accepts(&Event::IsFile(true)));
    assert!(!ext.accepts(&Event::Acknowledged));
}

#[test]
fn only_the_current_version_dir_is_kept() {
    let dir = "neocmakelsp-v2".to_string();
    assert!(keeps_entry(&Some("neocmakelsp-v2".to_string()), &dir));
    assert!(!keeps_entry(&Some("neocmakelsp-v1".to_string()), &dir));
    assert!(!keeps_entry(&None, &dir));
}
