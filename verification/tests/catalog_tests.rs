use dpab_appsanity::catalog::{AppMetadata, CatalogContent, CatalogHashStorage, CatalogService, PollingInterval};
use dpab_appsanity::config::CatalogServiceConfig;
use dpab_appsanity::model::{DistributorSession, DpabError};

fn config() -> CatalogServiceConfig {
    CatalogServiceConfig {
        enabled: true,
        url: "catalog.example.com".into(),
        polling_interval_secs: 60,
        retry_interval_secs: 5,
        max_retry_interval_secs: 40,
        saved_dir: "/data".into(),
    }
}

#[test]
fn polling_backs_off_to_maximum() {
    let mut p = PollingInterval::new(&config());
    assert_eq!(p.get(), 60);
    assert_eq!(p.update(), 5);
    assert_eq!(p.update(), 10);
    assert_eq!(p.update(), 20);
    assert_eq!(p.update(), 40);
    assert_eq!(p.update(), 40);
    assert_eq!(p.get(), 40);
    let p = PollingInterval::new(&config());
    assert_eq!(p.get(), 60);
}

#[test]
fn retry_equal_to_polling_never_grows() {
    let mut c = config();
    c.retry_interval_secs = 60;
    let mut p = PollingInterval::new(&c);
    assert_eq!(p.update(), 60);
    assert_eq!(p.update(), 60);
}

#[test]
fn hash_storage_path_and_values() {
    let mut s = CatalogHashStorage::new("/data".into());
    assert_eq!(s.path(), "/data/apps/catalog_hash");
    assert!(s.needs_read());
    assert_eq!(s.get(None), "");
    assert!(s.needs_read());
    assert_eq!(s.get(Some("h1".into())), "h1");
    assert!(!s.needs_read());
    assert_eq!(s.get(Some("ignored".into())), "h1");
    s.set("h2".into());
    assert_eq!(s.get(Some("other".into())), "h2");
}

#[test]
fn catalog_requests_need_a_session() {
    let mut svc = CatalogService::new(config());
    assert_eq!(svc.hash_request().err(), Some(DpabError::ServiceError));
    assert_eq!(svc.contents_request(&"h".into(), &"".into()).err(), Some(DpabError::ServiceError));
    svc.distributor_session = Some(DistributorSession {
        id: "p".into(),
        token: "t".into(),
        account_id: "acc".into(),
        device_id: "dev".into(),
    });
    let r = svc.hash_request().ok().unwrap();
    assert_eq!(r.account_id, "acc");
    assert_eq!(r.device_id, "dev");
    assert_eq!(r.firebolt_version, "0.1.0");
    let q = svc.contents_request(&"h".into(), &"page2".into()).ok().unwrap();
    assert_eq!(q.catalog_hash, "h");
    assert_eq!(q.page_token, "page2");
}

#[test]
fn new_hash_detected() {
    let mut svc = CatalogService::new(config());
    assert!(svc.is_new_hash(&"abc".into(), Some("old".into())));
    assert!(!svc.is_new_hash(&"old".into(), Some("ignored".into())));
    svc.catalog_hash.set("abc".into());
    assert!(!svc.is_new_hash(&"abc".into(), None));
    let mut fresh = CatalogService::new(config());
    assert!(!fresh.is_new_hash(&"".into(), None));
}

#[test]
fn pages_collected() {
    let mut catalog: Vec<AppMetadata> = Vec::new();
    let next = CatalogService::add_page(
        &mut catalog,
        vec![CatalogContent {
            durable_app_id: "a1".into(),
            title: "A".into(),
            version: "1".into(),
            location_uri: "u1".into(),
        }],
        "next".into(),
    );
    assert_eq!(next, Some("next".into()));
    let last = CatalogService::add_page(
        &mut catalog,
        vec![CatalogContent {
            durable_app_id: "a2".into(),
            title: "B".into(),
            version: "2".into(),
            location_uri: "u2".into(),
        }],
        "".into(),
    );
    assert_eq!(last, None);
    assert_eq!(catalog.len(), 2);
    assert_eq!(catalog[0].id, "a1");
    assert_eq!(catalog[1].uri, "u2");
    assert!(catalog[1].data.is_none());
}
