use npm_registry::metadata::PackageMetadata;
use npm_registry::registry::DiskReadOutcome;
use npm_registry::registry::DiskStep;
use npm_registry::registry::FetchOutcome;
use npm_registry::registry::LookupStep;
use npm_registry::registry::NpmRegistry;
use npm_registry::registry::should_persist;
use npm_registry::setting::CacheSetting;

const BASE: &str = "https://registry.example/";

fn client(setting: CacheSetting) -> NpmRegistry {
    NpmRegistry::new(BASE.to_owned(), setting, false, false)
}

fn meta(body: &str) -> PackageMetadata {
    PackageMetadata::new(body.to_owned())
}

#[test]
fn first_call_fetches_second_hits_memory() {
    // Base URL `https://registry.example/`, name `left-pad`.  The first
    // call goes to the network, succeeds, and would write the disk
    // file; the second call in the same process answers from memory.
    let mut c = client(CacheSetting::Use);
    let step = c.maybe_package_info("left-pad");
    assert!(matches!(step, LookupStep::CheckDisk));
    let step = c.resume_with_disk("left-pad", DiskReadOutcome::Missing);
    assert!(matches!(step, DiskStep::StartFetch));
    let url = c.prepare_registry_fetch("left-pad").unwrap();
    assert_eq!(url, "https://registry.example/left-pad");
    let outcome = FetchOutcome::Success(meta("{\"versions\":{\"1.0.0\":{}}}"));
    assert!(should_persist(&outcome));
    let got = c.finish_fetch("left-pad", outcome).unwrap().unwrap();
    assert_eq!(got.body(), "{\"versions\":{\"1.0.0\":{}}}");

    // second call: memory hit, no further step asks for disk or network
    let step = c.maybe_package_info("left-pad");
    match step {
        LookupStep::Hit(Some(info)) => {
            assert_eq!(info.body(), "{\"versions\":{\"1.0.0\":{}}}")
        }
        _ => panic!("expected a memory hit"),
    }
}

#[test]
fn concurrent_callers_share_one_fetch() {
    // While a fetch is in flight every further caller is told to wait
    // on it, and the one settled outcome is what everyone observes.
    let mut c = client(CacheSetting::Use);
    assert!(matches!(c.maybe_package_info("chalk"), LookupStep::CheckDisk));
    assert!(matches!(
        c.resume_with_disk("chalk", DiskReadOutcome::Missing),
        DiskStep::StartFetch
    ));
    assert!(c.is_fetch_pending("chalk"));

    // two more callers arrive before the fetch settles
    assert!(matches!(c.maybe_package_info("chalk"), LookupStep::AwaitInFlight));
    assert!(matches!(c.maybe_package_info("chalk"), LookupStep::AwaitInFlight));

    let got = c
        .finish_fetch("chalk", FetchOutcome::Success(meta("{\"name\":\"chalk\"}")))
        .unwrap()
        .unwrap();
    assert_eq!(got.body(), "{\"name\":\"chalk\"}");

    // the waiters now observe the identical settled result
    match c.maybe_package_info("chalk") {
        LookupStep::Hit(Some(info)) => assert_eq!(info.body(), "{\"name\":\"chalk\"}"),
        _ => panic!("expected a memory hit"),
    }
    assert_eq!(
        c.get_cached_package_info("chalk").unwrap().body(),
        "{\"name\":\"chalk\"}"
    );
}

#[test]
fn successful_fetch_feeds_cached_reads() {
    // After one successful fetch, the memory-only read returns the
    // derived metadata without any further lookup step.
    let mut c = client(CacheSetting::Use);
    assert!(matches!(c.maybe_package_info("react"), LookupStep::CheckDisk));
    assert!(matches!(
        c.resume_with_disk("react", DiskReadOutcome::Missing),
        DiskStep::StartFetch
    ));
    assert!(c.get_cached_package_info("react").is_none());
    c.finish_fetch("react", FetchOutcome::Success(meta("{\"v\":1}")))
        .unwrap();
    assert_eq!(c.get_cached_package_info("react").unwrap().body(), "{\"v\":1}");
}

#[test]
fn not_found_is_cached_negatively() {
    // A not-found response caches `None`; later calls answer the
    // absence from memory.
    let mut c = client(CacheSetting::Use);
    assert!(matches!(c.maybe_package_info("no-such-pkg"), LookupStep::CheckDisk));
    assert!(matches!(
        c.resume_with_disk("no-such-pkg", DiskReadOutcome::Missing),
        DiskStep::StartFetch
    ));
    let outcome = FetchOutcome::NotFound;
    assert!(!should_persist(&outcome));
    assert!(c.finish_fetch("no-such-pkg", outcome).unwrap().is_none());

    // the negative result is served from memory
    assert!(matches!(c.maybe_package_info("no-such-pkg"), LookupStep::Hit(None)));
    assert!(c.get_cached_package_info("no-such-pkg").is_none());
    assert!(c.has_entry("no-such-pkg"));
}

#[test]
fn cache_only_mode_refuses_network() {
    // Under the cache-only policy with no local file the result is the
    // distinct not-cached error, and no URL to fetch is ever handed out.
    let mut c = client(CacheSetting::Only);
    assert!(matches!(c.maybe_package_info("left-pad"), LookupStep::CheckDisk));
    assert!(matches!(
        c.resume_with_disk("left-pad", DiskReadOutcome::Missing),
        DiskStep::StartFetch
    ));
    let refused = c.prepare_registry_fetch("left-pad").unwrap_err();
    assert!(matches!(
        refused.kind,
        npm_registry::errors::RegistryErrorKind::NotCached
    ));
    assert_eq!(refused.name, "left-pad");
    let delivered = c
        .finish_fetch("left-pad", FetchOutcome::Failed(refused))
        .unwrap_err();
    assert!(matches!(
        delivered.kind,
        npm_registry::errors::RegistryErrorKind::NotCached
    ));
    // the failed fetch left no entry behind, so the next call retries
    assert!(!c.has_entry("left-pad"));
}

#[test]
fn corrupted_disk_file_is_a_miss() {
    // A corrupted disk file is ignored, exactly one fetch is started,
    // and its successful outcome is what gets persisted again.
    let mut c = client(CacheSetting::Use);
    assert!(matches!(c.maybe_package_info("lodash"), LookupStep::CheckDisk));
    let disk = DiskReadOutcome::Corrupt("trailing characters at line 1".to_owned());
    assert!(matches!(c.resume_with_disk("lodash", disk), DiskStep::StartFetch));
    assert!(c.is_fetch_pending("lodash"));
    let outcome = FetchOutcome::Success(meta("{\"fixed\":true}"));
    assert!(should_persist(&outcome));
    let got = c.finish_fetch("lodash", outcome).unwrap().unwrap();
    assert_eq!(got.body(), "{\"fixed\":true}");
}

#[test]
fn unreadable_disk_file_is_a_miss() {
    let mut c = client(CacheSetting::Use);
    assert!(matches!(c.maybe_package_info("ms"), LookupStep::CheckDisk));
    let disk = DiskReadOutcome::IoFailure("permission denied".to_owned());
    assert!(matches!(c.resume_with_disk("ms", disk), DiskStep::StartFetch));
}

#[test]
fn reload_forces_exactly_one_fetch_per_name() {
    // Under a reload policy naming `left-pad`, the first call fetches
    // even though a valid disk file exists; the second call in the same
    // process is free to use the disk cache.
    let names = vec!["left-pad".to_owned()];
    let mut c = client(CacheSetting::ReloadSome(names));
    let step = c.maybe_package_info("left-pad");
    assert!(matches!(step, LookupStep::StartFetch));
    c.finish_fetch("left-pad", FetchOutcome::Success(meta("{\"fresh\":1}")))
        .unwrap();

    // drop the memory entry so the next call has to go past memory
    c.clear_memory_cache();
    assert!(!c.has_entry("left-pad"));

    let step = c.maybe_package_info("left-pad");
    assert!(matches!(step, LookupStep::CheckDisk));
    let step = c.resume_with_disk("left-pad", DiskReadOutcome::Valid(meta("{\"fresh\":1}")));
    match step {
        DiskStep::Hit(info) => assert_eq!(info.body(), "{\"fresh\":1}"),
        DiskStep::StartFetch => panic!("expected the disk to answer"),
    }
}

#[test]
fn reload_all_targets_every_name() {
    let mut c = client(CacheSetting::ReloadAll);
    assert!(matches!(c.maybe_package_info("a"), LookupStep::StartFetch));
    assert!(matches!(c.maybe_package_info("b"), LookupStep::StartFetch));
}

#[test]
fn reload_policy_leaves_other_names_alone() {
    let names = vec!["left-pad".to_owned()];
    let mut c = client(CacheSetting::ReloadSome(names));
    // a name the policy does not target may use the disk at once
    assert!(matches!(c.maybe_package_info("chalk"), LookupStep::CheckDisk));
}

#[test]
fn disk_hit_resolves_without_network() {
    let mut c = client(CacheSetting::Use);
    assert!(matches!(c.maybe_package_info("iconv"), LookupStep::CheckDisk));
    let step = c.resume_with_disk("iconv", DiskReadOutcome::Valid(meta("{\"d\":1}")));
    match step {
        DiskStep::Hit(info) => assert_eq!(info.body(), "{\"d\":1}"),
        DiskStep::StartFetch => panic!("expected the disk to answer"),
    }
    assert_eq!(c.get_cached_package_info("iconv").unwrap().body(), "{\"d\":1}");
}

#[test]
fn failed_fetch_is_retried_from_scratch() {
    let mut c = client(CacheSetting::Use);
    assert!(matches!(c.maybe_package_info("glob"), LookupStep::CheckDisk));
    assert!(matches!(
        c.resume_with_disk("glob", DiskReadOutcome::Missing),
        DiskStep::StartFetch
    ));
    let url = c.prepare_registry_fetch("glob").unwrap();
    let err = npm_registry::errors::RegistryError::transport(
        "glob".to_owned(),
        url,
        "connection reset".to_owned(),
    );
    let delivered = c.finish_fetch("glob", FetchOutcome::Failed(err)).unwrap_err();
    assert!(matches!(
        delivered.kind,
        npm_registry::errors::RegistryErrorKind::Transport(_)
    ));
    // the entry is gone, so the next lookup restarts the decision
    assert!(!c.has_entry("glob"));
    assert!(matches!(c.maybe_package_info("glob"), LookupStep::CheckDisk));
}

#[test]
fn clear_memory_cache_drops_entries() {
    let mut c = client(CacheSetting::Use);
    assert!(matches!(c.maybe_package_info("x"), LookupStep::CheckDisk));
    c.resume_with_disk("x", DiskReadOutcome::Valid(meta("{}")));
    assert!(c.get_cached_package_info("x").is_some());
    c.clear_memory_cache();
    assert!(c.get_cached_package_info("x").is_none());
    assert!(!c.has_entry("x"));
}

#[test]
fn get_cached_is_memory_only() {
    let mut c = client(CacheSetting::Use);
    // nothing cached yet
    assert!(c.get_cached_package_info("y").is_none());
    // a pending fetch also reads as absent
    assert!(matches!(c.maybe_package_info("y"), LookupStep::CheckDisk));
    c.resume_with_disk("y", DiskReadOutcome::Missing);
    assert!(c.is_fetch_pending("y"));
    assert!(c.get_cached_package_info("y").is_none());
}

#[test]
fn uninitialized_client_reports_itself() {
    let c = NpmRegistry::new_uninitialized();
    assert!(!c.is_initialized());
    let ready = client(CacheSetting::Use);
    assert!(ready.is_initialized());
}

#[test]
fn base_url_is_kept() {
    let c = client(CacheSetting::Use);
    assert_eq!(c.base_url(), "https://registry.example/");
}

#[test]
fn sync_download_flag_is_kept() {
    let c = NpmRegistry::new(BASE.to_owned(), CacheSetting::Use, true, false);
    assert!(c.should_sync_download());
    assert!(!client(CacheSetting::Use).should_sync_download());
}

#[test]
fn save_failure_is_fatal_only_in_strict_mode() {
    let strict = NpmRegistry::new(BASE.to_owned(), CacheSetting::Use, false, true);
    assert!(strict.save_failure_is_fatal(true));
    assert!(!strict.save_failure_is_fatal(false));
    let lax = client(CacheSetting::Use);
    assert!(!lax.save_failure_is_fatal(true));
}
