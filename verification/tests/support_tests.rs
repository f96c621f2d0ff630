use npm_registry::errors::RegistryError;
use npm_registry::errors::RegistryErrorKind;
use npm_registry::metadata::PackageMetadata;
use npm_registry::registry::NpmRegistry;
use npm_registry::setting::CacheSetting;
use npm_registry::sync_queue::SyncQueue;
use npm_registry::urls::normalize_base_url;
use npm_registry::urls::package_url;

#[test]
fn default_url_is_the_public_registry() {
    assert_eq!(NpmRegistry::default_url(), "https://registry.npmjs.org/");
}

#[test]
fn normalize_adds_the_missing_slash() {
    assert_eq!(normalize_base_url("https://registry.example"), "https://registry.example/");
}

#[test]
fn normalize_collapses_extra_slashes() {
    assert_eq!(normalize_base_url("https://registry.example///"), "https://registry.example/");
    assert_eq!(normalize_base_url("https://registry.example/"), "https://registry.example/");
}

#[test]
fn normalize_of_empty_input_is_one_slash() {
    assert_eq!(normalize_base_url(""), "/");
}

#[test]
fn package_url_is_plain_concatenation() {
    assert_eq!(
        package_url("https://registry.example/", "left-pad"),
        "https://registry.example/left-pad"
    );
    assert_eq!(
        package_url("https://registry.example/", "@scope/pkg"),
        "https://registry.example/@scope/pkg"
    );
    assert_eq!(package_url("https://registry.example/", ""), "https://registry.example/");
}

#[test]
fn use_and_only_permit_disk_use() {
    assert!(CacheSetting::Use.permits_disk_use("anything"));
    assert!(CacheSetting::Only.permits_disk_use("anything"));
}

#[test]
fn reload_all_permits_no_disk_use() {
    assert!(!CacheSetting::ReloadAll.permits_disk_use("anything"));
}

#[test]
fn reload_some_targets_only_its_names() {
    let setting = CacheSetting::ReloadSome(vec!["a".to_owned(), "b".to_owned()]);
    assert!(!setting.permits_disk_use("a"));
    assert!(!setting.permits_disk_use("b"));
    assert!(setting.permits_disk_use("c"));
    let empty = CacheSetting::ReloadSome(Vec::new());
    assert!(empty.permits_disk_use("a"));
}

#[test]
fn network_is_forbidden_only_under_cache_only() {
    assert!(CacheSetting::Only.is_network_forbidden());
    assert!(!CacheSetting::Use.is_network_forbidden());
    assert!(!CacheSetting::ReloadAll.is_network_forbidden());
    assert!(!CacheSetting::ReloadSome(Vec::new()).is_network_forbidden());
}

#[test]
fn transport_error_message_names_url_and_package() {
    let e = RegistryError::transport(
        "left-pad".to_owned(),
        "https://registry.example/left-pad".to_owned(),
        "HTTP status 500".to_owned(),
    );
    assert_eq!(
        e.message(),
        "Error getting response at https://registry.example/left-pad for package \"left-pad\": HTTP status 500"
    );
}

#[test]
fn not_cached_error_message_names_the_package() {
    let e = RegistryError::not_cached(
        "left-pad".to_owned(),
        "https://registry.example/left-pad".to_owned(),
    );
    assert_eq!(
        e.message(),
        "Error getting response at https://registry.example/left-pad for package \"left-pad\": An npm specifier not found in cache: \"left-pad\", --cached-only is specified."
    );
}

#[test]
fn deserialization_error_message_carries_the_detail() {
    let e = RegistryError::deserialization(
        "left-pad".to_owned(),
        "https://registry.example/left-pad".to_owned(),
        "expected value at line 1 column 1".to_owned(),
    );
    assert!(matches!(e.kind, RegistryErrorKind::Deserialization(_)));
    assert_eq!(
        e.message(),
        "Error getting response at https://registry.example/left-pad for package \"left-pad\": expected value at line 1 column 1"
    );
}

#[test]
fn metadata_keeps_its_body() {
    let m = PackageMetadata::new("{\"versions\":{}}".to_owned());
    assert_eq!(m.body(), "{\"versions\":{}}");
    let copy = m.clone();
    assert_eq!(copy, m);
}

#[test]
fn sync_queue_serves_tickets_in_submission_order() {
    let mut q = SyncQueue::new();
    let t0 = q.enqueue();
    let t1 = q.enqueue();
    let t2 = q.enqueue();
    assert_eq!((t0, t1, t2), (0, 1, 2));
    assert_eq!(q.pending(), 3);
    assert!(q.is_turn(t0));
    assert!(!q.is_turn(t1));
    q.finish_turn();
    assert!(q.is_turn(t1));
    q.finish_turn();
    assert!(q.is_turn(t2));
    q.finish_turn();
    assert_eq!(q.pending(), 0);
}
