use pkl_resolver::Action;
use pkl_resolver::ArtifactResolver;
use pkl_resolver::AssetInfo;
use pkl_resolver::Event;
use pkl_resolver::InstallationError;
use pkl_resolver::ReleaseInfo;
use pkl_resolver::expected_asset_name;
use pkl_resolver::find_asset;
use pkl_resolver::launch_command;
use pkl_resolver::should_remove;

fn asset(name: &str, url: &str) -> AssetInfo {
    AssetInfo { name: String::from(name), download_url: String::from(url) }
}

fn release(version: &str, assets: Vec<AssetInfo>) -> ReleaseInfo {
    ReleaseInfo { version: String::from(version), assets }
}

/// Drives one resolution attempt against a simulated host: `cached_on_disk`
/// answers the cached-path stat, `asset_on_disk` the working-directory stat,
/// and every feed query is counted and answered with `rel`.
fn run_resolution(
    r: &mut ArtifactResolver,
    rel: &ReleaseInfo,
    cached_on_disk: bool,
    asset_on_disk: bool,
    feed_queries: &mut usize,
) -> Result<String, InstallationError> {
    assert!(r.is_idle());
    let mut action = r.step(Event::Start);
    loop {
        action = match action {
            Action::StatCachedFile { path: _ } => {
                r.step(Event::CachedStat { is_file: cached_on_disk })
            }
            Action::QueryFeed => {
                *feed_queries += 1;
                r.step(Event::FeedOk { release: rel.clone() })
            }
            Action::StatAssetFile { name: _ } => {
                r.step(Event::AssetStat { is_file: asset_on_disk })
            }
            Action::DownloadAsset { url: _, destination: _ } => r.step(Event::DownloadOk),
            Action::SweepDirectory { keep: _ } => r.step(Event::SweepDone),
            Action::ResolveAbsolute { name } => {
                let mut p = String::from("/work/");
                p.push_str(&name);
                r.step(Event::AbsoluteOk { path: p })
            }
            Action::Complete { path } => return Ok(path),
            Action::Fail { error } => return Err(error),
        };
    }
}

#[test]
fn expected_asset_name_formats_template() {
    assert_eq!(expected_asset_name("1.2.3"), "pkl-lsp-1.2.3.jar");
    assert_eq!(expected_asset_name("0.10.0"), "pkl-lsp-0.10.0.jar");
}

#[test]
fn fresh_resolver_queries_feed() {
    let mut r = ArtifactResolver::new();
    assert!(r.is_idle());
    let a = r.step(Event::Start);
    assert_eq!(a, Action::QueryFeed);
}

#[test]
fn full_fetch_path_in_order() {
    let mut r = ArtifactResolver::new();
    let a = r.step(Event::Start);
    assert_eq!(a, Action::QueryFeed);
    let rel = release(
        "1.2.3",
        vec![
            asset("pkl-lsp-1.2.3.jar.sha256", "https://example.test/sha"),
            asset("pkl-lsp-1.2.3.jar", "https://example.test/jar"),
        ],
    );
    let a = r.step(Event::FeedOk { release: rel });
    assert_eq!(a, Action::StatAssetFile { name: String::from("pkl-lsp-1.2.3.jar") });
    let a = r.step(Event::AssetStat { is_file: false });
    assert_eq!(
        a,
        Action::DownloadAsset {
            url: String::from("https://example.test/jar"),
            destination: String::from("pkl-lsp-1.2.3.jar"),
        }
    );
    let a = r.step(Event::DownloadOk);
    assert_eq!(a, Action::SweepDirectory { keep: String::from("pkl-lsp-1.2.3.jar") });
    let a = r.step(Event::SweepDone);
    assert_eq!(a, Action::ResolveAbsolute { name: String::from("pkl-lsp-1.2.3.jar") });
    let a = r.step(Event::AbsoluteOk { path: String::from("/work/pkl-lsp-1.2.3.jar") });
    assert_eq!(a, Action::Complete { path: String::from("/work/pkl-lsp-1.2.3.jar") });
    assert!(r.is_idle());
}

#[test]
fn cached_path_present_skips_feed() {
    let mut r = ArtifactResolver::new();
    let rel = release("1.2.3", vec![asset("pkl-lsp-1.2.3.jar", "https://example.test/jar")]);
    let mut feed_queries = 0;
    let first = run_resolution(&mut r, &rel, false, false, &mut feed_queries).unwrap();
    assert_eq!(feed_queries, 1);

    // The cached file still exists: the second attempt stats it and
    // completes with it, and the feed is never asked again.
    let a = r.step(Event::Start);
    assert_eq!(a, Action::StatCachedFile { path: first.clone() });
    let a = r.step(Event::CachedStat { is_file: true });
    assert_eq!(a, Action::Complete { path: first });
}

#[test]
fn deleted_cached_path_reenters_fetch() {
    let mut r = ArtifactResolver::new();
    let rel = release("1.2.3", vec![asset("pkl-lsp-1.2.3.jar", "https://example.test/jar")]);
    let mut feed_queries = 0;
    let first = run_resolution(&mut r, &rel, false, false, &mut feed_queries).unwrap();

    // The cached file has been deleted from disk: the stat answers no,
    // and the resolver re-enters the full fetch path.
    let a = r.step(Event::Start);
    assert_eq!(a, Action::StatCachedFile { path: first });
    let a = r.step(Event::CachedStat { is_file: false });
    assert_eq!(a, Action::QueryFeed);
}

#[test]
fn selects_exactly_the_matching_asset() {
    let mut r = ArtifactResolver::new();
    let a = r.step(Event::Start);
    assert_eq!(a, Action::QueryFeed);
    // Several assets; only the literal template match may be chosen,
    // and among duplicates the earliest.
    let rel = release(
        "1.2.3",
        vec![
            asset("README.md", "https://example.test/readme"),
            asset("pkl-lsp-1.2.3.jar.sha256", "https://example.test/sha"),
            asset("pkl-lsp-1.2.3.jar", "https://example.test/first"),
            asset("pkl-lsp-1.2.3.jar", "https://example.test/second"),
        ],
    );
    let a = r.step(Event::FeedOk { release: rel });
    assert_eq!(a, Action::StatAssetFile { name: String::from("pkl-lsp-1.2.3.jar") });
    let a = r.step(Event::AssetStat { is_file: false });
    assert_eq!(
        a,
        Action::DownloadAsset {
            url: String::from("https://example.test/first"),
            destination: String::from("pkl-lsp-1.2.3.jar"),
        }
    );
}

#[test]
fn find_asset_picks_first_exact_match() {
    let assets = vec![
        asset("pkl-lsp-1.2.3.jar.sha256", "u0"),
        asset("pkl-lsp-1.2.3.jar", "u1"),
        asset("pkl-lsp-1.2.3.jar", "u2"),
    ];
    assert_eq!(find_asset(&assets, &String::from("pkl-lsp-1.2.3.jar")), Some(1));
    assert_eq!(find_asset(&assets, &String::from("pkl-lsp-9.9.9.jar")), None);
    assert_eq!(find_asset(&Vec::new(), &String::from("pkl-lsp-1.2.3.jar")), None);
}

#[test]
fn missing_asset_fails_without_download() {
    let mut r = ArtifactResolver::new();
    let a = r.step(Event::Start);
    assert_eq!(a, Action::QueryFeed);
    let rel = release(
        "9.9.9",
        vec![
            asset("pkl-lsp-1.2.3.jar", "https://example.test/old"),
            asset("notes.txt", "https://example.test/notes"),
        ],
    );
    let a = r.step(Event::FeedOk { release: rel });
    match a {
        Action::Fail { error } => {
            assert_eq!(
                error,
                InstallationError::AssetNotFound {
                    asset_name: String::from("pkl-lsp-9.9.9.jar")
                }
            );
            assert_eq!(error.message(), "no asset found matching pkl-lsp-9.9.9.jar");
        }
        other => panic!("expected a failure, got {:?}", other),
    }
    // The attempt is over; no download was ever requested.
    assert!(r.is_idle());
}

#[test]
fn sweep_keeps_only_the_new_artifact() {
    let keep = String::from("pkl-lsp-2.0.0.jar");
    assert!(should_remove(&String::from("pkl-lsp-1.0.0.jar"), &keep));
    assert!(!should_remove(&String::from("pkl-lsp-2.0.0.jar"), &keep));
    assert!(should_remove(&String::from("scratch"), &keep));

    // The simulated working directory after downloading 2.0.0.
    let entries =
        vec![String::from("pkl-lsp-1.0.0.jar"), String::from("pkl-lsp-2.0.0.jar")];
    let kept: Vec<&String> = entries.iter().filter(|e| !should_remove(e, &keep)).collect();
    assert_eq!(kept, vec![&keep]);
}

#[test]
fn sweep_requested_only_after_download() {
    let mut r = ArtifactResolver::new();
    r.step(Event::Start);
    let rel = release("2.0.0", vec![asset("pkl-lsp-2.0.0.jar", "https://example.test/jar")]);
    r.step(Event::FeedOk { release: rel });
    // The asset file is already present: no download, hence no sweep.
    let a = r.step(Event::AssetStat { is_file: true });
    assert_eq!(a, Action::ResolveAbsolute { name: String::from("pkl-lsp-2.0.0.jar") });
}

#[test]
fn java_missing_fails_before_resolution() {
    let mut r = ArtifactResolver::new();
    let out = r.begin_launch(None);
    assert_eq!(out, Err(InstallationError::JavaNotFound));
    assert_eq!(InstallationError::JavaNotFound.message(), "Java must be installed");
    // The resolver was never started: it is still at rest, and a fresh
    // attempt is the only thing it will accept.
    assert!(r.is_idle());
    assert!(r.accepts_event(&Event::Start));
    assert!(!r.accepts_event(&Event::DownloadOk));
}

#[test]
fn java_present_starts_resolution() {
    let mut r = ArtifactResolver::new();
    let out = r.begin_launch(Some(String::from("/usr/bin/java")));
    let (java, first) = out.unwrap();
    assert_eq!(java, "/usr/bin/java");
    assert_eq!(first, Action::QueryFeed);
}

#[test]
fn launch_command_builds_java_invocation() {
    let c = launch_command(
        String::from("/usr/bin/java"),
        String::from("/work/pkl-lsp-1.2.3.jar"),
    );
    assert_eq!(c.command, "/usr/bin/java");
    assert_eq!(c.args, vec![String::from("-jar"), String::from("/work/pkl-lsp-1.2.3.jar")]);
    assert!(c.env.is_empty());
}

#[test]
fn resolve_twice_same_path_one_feed_query() {
    let mut r = ArtifactResolver::new();
    let rel = release("1.2.3", vec![asset("pkl-lsp-1.2.3.jar", "https://example.test/jar")]);
    let mut feed_queries = 0;
    let first = run_resolution(&mut r, &rel, false, false, &mut feed_queries).unwrap();
    assert_eq!(first, "/work/pkl-lsp-1.2.3.jar");
    // No intervening filesystem change: the cached file is still there.
    let second = run_resolution(&mut r, &rel, true, true, &mut feed_queries).unwrap();
    assert_eq!(second, first);
    assert_eq!(feed_queries, 1);
}

#[test]
fn feed_failure_is_terminal_and_leaves_no_state() {
    let mut r = ArtifactResolver::new();
    r.step(Event::Start);
    let a = r.step(Event::FeedErr { message: String::from("feed unreachable") });
    match a {
        Action::Fail { error } => {
            assert_eq!(error, InstallationError::Feed { message: String::from("feed unreachable") });
            assert_eq!(error.message(), "feed unreachable");
        }
        other => panic!("expected a failure, got {:?}", other),
    }
    assert!(r.is_idle());
    // A later attempt starts from scratch: nothing was cached.
    let a = r.step(Event::Start);
    assert_eq!(a, Action::QueryFeed);
}

#[test]
fn download_failure_is_terminal() {
    let mut r = ArtifactResolver::new();
    r.step(Event::Start);
    let rel = release("1.2.3", vec![asset("pkl-lsp-1.2.3.jar", "https://example.test/jar")]);
    r.step(Event::FeedOk { release: rel });
    r.step(Event::AssetStat { is_file: false });
    let a = r.step(Event::DownloadErr { message: String::from("connection reset") });
    match a {
        Action::Fail { error } => {
            assert_eq!(error.message(), "failed to download file: connection reset");
        }
        other => panic!("expected a failure, got {:?}", other),
    }
    assert!(r.is_idle());
}

#[test]
fn path_failure_is_terminal() {
    let mut r = ArtifactResolver::new();
    r.step(Event::Start);
    let rel = release("1.2.3", vec![asset("pkl-lsp-1.2.3.jar", "https://example.test/jar")]);
    r.step(Event::FeedOk { release: rel });
    r.step(Event::AssetStat { is_file: true });
    let a = r.step(Event::AbsoluteErr { message: String::from("Path to pkl-lsp is not utf8") });
    match a {
        Action::Fail { error } => {
            assert_eq!(
                error,
                InstallationError::Path { message: String::from("Path to pkl-lsp is not utf8") }
            );
            assert_eq!(error.message(), "Path to pkl-lsp is not utf8");
        }
        other => panic!("expected a failure, got {:?}", other),
    }
    assert!(r.is_idle());
}
