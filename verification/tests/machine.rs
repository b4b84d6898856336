use azure_mcp::cache::{Action, Cache, Event, ResolveError};
use azure_mcp::platform::{Arch, Os};
use azure_mcp::release::{Asset, Release};

fn release_123() -> Release {
    Release {
        version: "1.2.3".to_string(),
        assets: vec![
            Asset {
                name: "azure-mcp-darwin-arm64-1.2.3.tgz".to_string(),
                download_url: "https://example.invalid/darwin".to_string(),
            },
            Asset {
                name: "azure-mcp-linux-arm64-1.2.3.tgz".to_string(),
                download_url: "https://example.invalid/linux".to_string(),
            },
        ],
    }
}

/// Drives a fresh cache up to the artifact stat and returns the cache and
/// the artifact path the machine asked to stat.
fn drive_to_artifact_stat(cache: &mut Cache) -> String {
    let a = cache.start();
    assert!(matches!(a, Action::GetPlatform));
    let a = cache.step(Event::PlatformResult(Os::Linux, Arch::Aarch64));
    assert!(matches!(a, Action::GetRelease));
    let a = cache.step(Event::ReleaseResult(Ok(release_123())));
    match a {
        Action::Stat(path) => {
            assert_eq!(path, "azure-mcp-1.2.3/package/dist/azmcp");
            path
        }
        _ => panic!("expected a stat of the artifact path"),
    }
}

#[test]
fn full_cycle_with_download() {
    let mut cache = Cache::new();
    assert_eq!(cache.cached_path(), &None);
    drive_to_artifact_stat(&mut cache);
    let a = cache.step(Event::StatResult(false));
    match a {
        Action::Download { url, into_dir } => {
            assert_eq!(url, "https://example.invalid/linux");
            assert_eq!(into_dir, "azure-mcp-1.2.3");
        }
        _ => panic!("expected a download"),
    }
    let a = cache.step(Event::DownloadResult(Ok(())));
    assert!(matches!(a, Action::ListDir));
    let entries = vec![
        "azure-mcp-1.2.3".to_string(),
        "azure-mcp-1.2.2".to_string(),
        "unrelated-file".to_string(),
    ];
    let a = cache.step(Event::ListDirResult(Ok(entries)));
    match a {
        Action::Remove(stale) => {
            assert_eq!(stale, vec!["azure-mcp-1.2.2".to_string(), "unrelated-file".to_string()]);
        }
        _ => panic!("expected best-effort removals"),
    }
    let a = cache.step(Event::RemoveDone);
    match a {
        Action::Absolutize(p) => assert_eq!(p, "azure-mcp-1.2.3/package/dist/azmcp"),
        _ => panic!("expected an absolutize request"),
    }
    let a = cache.step(Event::AbsolutizeResult(Ok(
        "/work/azure-mcp-1.2.3/package/dist/azmcp".to_string(),
    )));
    match a {
        Action::Done(p) => assert_eq!(p, "/work/azure-mcp-1.2.3/package/dist/azmcp"),
        _ => panic!("expected success"),
    }
    assert_eq!(
        cache.cached_path(),
        &Some("/work/azure-mcp-1.2.3/package/dist/azmcp".to_string())
    );
}

#[test]
fn idempotent_fast_path_after_success() {
    let mut cache = Cache::new();
    drive_to_artifact_stat(&mut cache);
    cache.step(Event::StatResult(true));
    cache.step(Event::ListDirResult(Ok(vec!["azure-mcp-1.2.3".to_string()])));
    cache.step(Event::RemoveDone);
    cache.step(Event::AbsolutizeResult(Ok("/abs/azmcp".to_string())));

    // The second cycle is one stat and the cached answer: no platform read,
    // no release query, no download, no cleanup.
    let a = cache.start();
    match a {
        Action::Stat(p) => assert_eq!(p, "/abs/azmcp"),
        _ => panic!("expected a stat of the cached path"),
    }
    let a = cache.step(Event::StatResult(true));
    match a {
        Action::Done(p) => assert_eq!(p, "/abs/azmcp"),
        _ => panic!("expected the cached path back"),
    }
    assert_eq!(cache.cached_path(), &Some("/abs/azmcp".to_string()));
}

#[test]
fn stale_pointer_triggers_re_resolution() {
    let mut cache = Cache::new();
    drive_to_artifact_stat(&mut cache);
    cache.step(Event::StatResult(true));
    cache.step(Event::ListDirResult(Ok(vec![])));
    cache.step(Event::RemoveDone);
    cache.step(Event::AbsolutizeResult(Ok("/abs/azmcp".to_string())));

    let a = cache.start();
    assert!(matches!(a, Action::Stat(_)));
    // The file vanished: the machine re-resolves instead of erroring.
    let a = cache.step(Event::StatResult(false));
    assert!(matches!(a, Action::GetPlatform));
    // The pointer is a hint and is not cleared by the miss.
    assert_eq!(cache.cached_path(), &Some("/abs/azmcp".to_string()));
}

#[test]
fn cold_start_reuses_artifact_on_disk() {
    let mut cache = Cache::new();
    drive_to_artifact_stat(&mut cache);
    // The artifact is already on disk: no download is requested, but the
    // stale-version cleanup still runs.
    let a = cache.step(Event::StatResult(true));
    assert!(matches!(a, Action::ListDir));
    let a = cache.step(Event::ListDirResult(Ok(vec![
        "azure-mcp-1.2.3".to_string(),
        "azure-mcp-1.0.0".to_string(),
    ])));
    match a {
        Action::Remove(stale) => assert_eq!(stale, vec!["azure-mcp-1.0.0".to_string()]),
        _ => panic!("expected best-effort removals"),
    }
    let a = cache.step(Event::RemoveDone);
    assert!(matches!(a, Action::Absolutize(_)));
    let a = cache.step(Event::AbsolutizeResult(Ok("/abs/azmcp".to_string())));
    assert!(matches!(a, Action::Done(_)));
}

#[test]
fn corrupt_download_does_not_poison_empty_cache() {
    let mut cache = Cache::new();
    drive_to_artifact_stat(&mut cache);
    cache.step(Event::StatResult(false));
    let a = cache.step(Event::DownloadResult(Err("truncated archive".to_string())));
    match a {
        Action::Fail(ResolveError::FetchFailed(m)) => assert_eq!(m, "truncated archive"),
        _ => panic!("expected a fetch failure"),
    }
    // The pointer is exactly as before the cycle: unset.
    assert_eq!(cache.cached_path(), &None);
    // A fresh cycle retries resolution from the start.
    let a = cache.start();
    assert!(matches!(a, Action::GetPlatform));
}

#[test]
fn corrupt_download_keeps_prior_valid_pointer() {
    let mut cache = Cache::new();
    drive_to_artifact_stat(&mut cache);
    cache.step(Event::StatResult(true));
    cache.step(Event::ListDirResult(Ok(vec![])));
    cache.step(Event::RemoveDone);
    cache.step(Event::AbsolutizeResult(Ok("/abs/old".to_string())));

    // The old artifact vanished; the new download fails.
    cache.start();
    cache.step(Event::StatResult(false));
    cache.step(Event::PlatformResult(Os::Linux, Arch::Aarch64));
    cache.step(Event::ReleaseResult(Ok(release_123())));
    cache.step(Event::StatResult(false));
    let a = cache.step(Event::DownloadResult(Err("bad gzip".to_string())));
    assert!(matches!(a, Action::Fail(ResolveError::FetchFailed(_))));
    // The pointer still names the prior artifact.
    assert_eq!(cache.cached_path(), &Some("/abs/old".to_string()));
}

#[test]
fn release_lookup_failure_surfaces() {
    let mut cache = Cache::new();
    cache.start();
    cache.step(Event::PlatformResult(Os::Mac, Arch::X8664));
    let a = cache.step(Event::ReleaseResult(Err("rate limited".to_string())));
    match a {
        Action::Fail(ResolveError::ReleaseLookupFailed(m)) => assert_eq!(m, "rate limited"),
        _ => panic!("expected a release lookup failure"),
    }
    assert_eq!(cache.cached_path(), &None);
}

#[test]
fn missing_asset_fails_without_download() {
    let mut cache = Cache::new();
    cache.start();
    cache.step(Event::PlatformResult(Os::Windows, Arch::X86));
    // The release ships no win32-x86 asset.
    let a = cache.step(Event::ReleaseResult(Ok(release_123())));
    assert!(matches!(a, Action::Fail(ResolveError::NoMatchingAsset)));
    assert_eq!(cache.cached_path(), &None);
}

#[test]
fn empty_asset_list_has_no_match() {
    let mut cache = Cache::new();
    cache.start();
    cache.step(Event::PlatformResult(Os::Linux, Arch::X8664));
    let release = Release { version: "2.0.0".to_string(), assets: vec![] };
    let a = cache.step(Event::ReleaseResult(Ok(release)));
    assert!(matches!(a, Action::Fail(ResolveError::NoMatchingAsset)));
}

#[test]
fn listing_failure_aborts_cleanup_and_cycle() {
    let mut cache = Cache::new();
    drive_to_artifact_stat(&mut cache);
    cache.step(Event::StatResult(true));
    let a = cache.step(Event::ListDirResult(Err("permission denied".to_string())));
    match a {
        Action::Fail(ResolveError::ListDirFailed(m)) => assert_eq!(m, "permission denied"),
        _ => panic!("expected a listing failure"),
    }
    assert_eq!(cache.cached_path(), &None);
}

#[test]
fn absolutize_failure_surfaces() {
    let mut cache = Cache::new();
    drive_to_artifact_stat(&mut cache);
    cache.step(Event::StatResult(true));
    cache.step(Event::ListDirResult(Ok(vec![])));
    cache.step(Event::RemoveDone);
    let a = cache.step(Event::AbsolutizeResult(Err("no working directory".to_string())));
    match a {
        Action::Fail(ResolveError::AbsolutizeFailed(m)) => assert_eq!(m, "no working directory"),
        _ => panic!("expected an absolutize failure"),
    }
    assert_eq!(cache.cached_path(), &None);
}

#[test]
fn failure_messages_are_descriptive() {
    assert_eq!(
        ResolveError::ReleaseLookupFailed("rate limited".to_string()).message(),
        "release lookup failed: rate limited"
    );
    assert_eq!(
        ResolveError::UnsupportedPlatform.message(),
        "unsupported platform or architecture"
    );
    assert_eq!(ResolveError::NoMatchingAsset.message(), "no matching asset found");
    assert_eq!(
        ResolveError::FetchFailed("bad gzip".to_string()).message(),
        "download error bad gzip"
    );
    assert_eq!(
        ResolveError::ListDirFailed("denied".to_string()).message(),
        "failed to list working directory denied"
    );
    assert_eq!(
        ResolveError::AbsolutizeFailed("io".to_string()).message(),
        "failed to get absolute path io"
    );
}
