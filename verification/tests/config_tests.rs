use dpab_appsanity::config::{
    AppAuthorizationRules, AppsanityConfig, BehavioralMetricsConfig, CatalogServiceConfig, CloudService,
    CloudServiceScopes, LinchpinServices, MetricsSchema, MetricsSchemas, SiftConfig, SyncMonitorConfig,
};
use dpab_appsanity::defaults::{
    ad_platform_service_default, app_authorization_rules_default, behavioral_metrics_default,
    catalog_service_default, cloud_firebolt_mapping_default, discovery_service_default,
    linchpin_service_default, method_ignore_rules_default, metrics_schemas_default, permission_service_default,
    privacy_service_default, secure_storage_service_default, session_service_default,
    xvp_data_scopes_default, xvp_playback_service_default, xvp_video_service_default,
};
use dpab_appsanity::model::{CapRole, DistributorSession, Role, SyncAndMonitorModule, UserGrantMapping};
use dpab_appsanity::sync::{
    get_request_processor, get_sync_settings, replace_text, replace_uri_variables, sync_plan, LinchpinProxy,
    PrivacySyncMonitorService, SyncAndMonitorProcessor, UserGrantsSyncMonitorService,
};

fn service(url: &str) -> CloudService {
    CloudService { url: url.into() }
}

fn schemas() -> MetricsSchemas {
    MetricsSchemas {
        default_metrics_namespace: "entos".into(),
        default_metrics_schema_version: "0".into(),
        metrics_schemas: vec![
            MetricsSchema {
                event_name: "example".into(),
                alias: Some("name2useforeventtopabs".into()),
                namespace: Some("nameit".into()),
                version: Some("2.0".into()),
            },
            MetricsSchema { event_name: "plain".into(), alias: None, namespace: None, version: Some("3".into()) },
        ],
    }
}

fn config() -> AppsanityConfig {
    AppsanityConfig {
        permission_service: service("thor-permission.svc-qa.thor.comcast.com"),
        session_service: service("res-api.svc-qa.thor.comcast.com"),
        ad_platform_service: service("ad-platform-service.svc-qa.thor.comcast.com"),
        secure_storage_service: service("secure.example.com"),
        xvp_playback_service: service("https://playback.example.com/v1"),
        app_authorization_rules: AppAuthorizationRules {
            app_ignore_rules: vec![("foo".into(), vec!["*".into()])],
        },
        method_ignore_rules: vec!["some.nonexistent.method".into()],
        behavioral_metrics: BehavioralMetricsConfig {
            sift: SiftConfig {
                endpoint: "https://collector.pabs.comcast.com/platco/dev".into(),
                api_key: "key".into(),
                batch_size: 1,
                max_queue_size: 20,
                send_interval_seconds: 30,
                metrics_schemas: schemas(),
            },
        },
        xvp_session_service: service("https://session.example.com"),
        privacy_service: service("https://ess.example.com/v1/partners/{partnerId}/accounts/{accountId}"),
        xvp_video_service: service("https://video.example.com"),
        sync_monitor_service: SyncMonitorConfig {
            linchpin_url: "wss://linchpin.example.com/".into(),
            services: vec![
                LinchpinServices {
                    service_name: "privacy_service".into(),
                    listen_topic: "topic/{partnerId}/{accountId}/{clientId}".into(),
                    ttl: 600,
                },
                LinchpinServices { service_name: "privacy_service".into(), listen_topic: "second".into(), ttl: 1 },
            ],
        },
        user_grants_mapping: vec![UserGrantMapping {
            property: "xcal:appDataCollection".into(),
            cap_role: CapRole { role: Role::Use, cap: "cap".into() },
        }],
        xvp_data_scopes: CloudServiceScopes::default(),
        catalog_service: CatalogServiceConfig {
            enabled: true,
            url: "catalog.example.com".into(),
            polling_interval_secs: 60,
            retry_interval_secs: 5,
            max_retry_interval_secs: 40,
            saved_dir: "/tmp/x".into(),
        },
    }
}

fn session() -> DistributorSession {
    DistributorSession { id: "xglobal".into(), token: "t".into(), account_id: "acc".into(), device_id: "dev".into() }
}

#[test]
fn event_alias_and_path() {
    let s = schemas();
    assert_eq!(s.get_event_name_alias("example"), "name2useforeventtopabs");
    assert_eq!(s.get_event_name_alias("other"), "other");
    assert_eq!(s.get_event_name_alias("plain"), "plain");
    assert_eq!(s.get_event_path("example"), "nameit/example/2.0");
    assert_eq!(s.get_event_path("plain"), "entos/plain/3");
    assert_eq!(s.get_event_path("other"), "entos/other/0");
}

#[test]
fn services_looked_up_by_url() {
    let c = config();
    assert_eq!(c.get_service_name("res-api.svc-qa.thor.comcast.com"), Some("session_service".into()));
    assert_eq!(c.get_service_name("unknown"), None);
    let privacy_url = c.privacy_service.url.clone();
    assert_eq!(c.get_service_name(&privacy_url), Some("privacy_service".into()));
    assert_eq!(c.get_linchpin_topic_for_url(&privacy_url), Some("topic/{partnerId}/{accountId}/{clientId}".into()));
    assert_eq!(c.get_ttl_for_url(&privacy_url), Some(600));
    assert_eq!(c.get_ttl_for_service("nothing"), None);
    assert_eq!(c.get_linchpin_topic_for_url("https://video.example.com"), None);
}

#[test]
fn scopes_default_to_account() {
    let s = CloudServiceScopes::default();
    assert_eq!(s.get_xvp_content_access_scope(), "account");
    assert_eq!(s.get_xvp_sign_in_state_scope(), "account");
    let d = CloudServiceScopes::new("device".into(), "account".into());
    assert_eq!(d.get_xvp_content_access_scope(), "device");
}

#[test]
fn defaults_are_the_default_settings() {
    let c = config();
    assert_eq!(permission_service_default(&c).url, c.permission_service.url);
    assert_eq!(ad_platform_service_default(&c).url, c.ad_platform_service.url);
    assert_eq!(secure_storage_service_default(&c).url, c.secure_storage_service.url);
    assert_eq!(xvp_playback_service_default(&c).url, c.xvp_playback_service.url);
    assert_eq!(session_service_default(&c).url, c.session_service.url);
    assert_eq!(app_authorization_rules_default(&c).app_ignore_rules, c.app_authorization_rules.app_ignore_rules);
    assert_eq!(method_ignore_rules_default(&c), c.method_ignore_rules);
    assert_eq!(behavioral_metrics_default(&c).sift.endpoint, c.behavioral_metrics.sift.endpoint);
    assert_eq!(metrics_schemas_default(&c).metrics_schemas.len(), 2);
    assert_eq!(discovery_service_default(&c).url, c.xvp_session_service.url);
    assert_eq!(privacy_service_default(&c).url, c.privacy_service.url);
    assert_eq!(xvp_video_service_default(&c).url, c.xvp_video_service.url);
    assert_eq!(linchpin_service_default(&c).services.len(), 2);
    assert_eq!(cloud_firebolt_mapping_default(&c)[0].property, "xcal:appDataCollection");
    assert_eq!(xvp_data_scopes_default(&c).get_xvp_sign_in_state_scope(), "account");
    assert_eq!(catalog_service_default(&c).max_retry_interval_secs, 40);
}

#[test]
fn uri_variables_replaced() {
    assert_eq!(
        replace_uri_variables("https://x/{partnerId}/{accountId}?c={clientId}&again={partnerId}", &session()),
        "https://x/xglobal/acc?c=ripple&again=xglobal"
    );
    assert_eq!(replace_uri_variables("", &session()), "");
    assert_eq!(replace_text("aaa", "aa", "b"), "ba");
    assert_eq!(replace_text("{partnerId", "{partnerId}", "x"), "{partnerId");
}

#[test]
fn linchpin_url_for_device() {
    assert_eq!(LinchpinProxy::get_linchpin_url("wss://l/", "d1"), "wss://l/listen?client=ripple&deviceId=d1");
    assert_eq!(LinchpinProxy::get_linchpin_url("wss://l", "d1"), "wss://l/listen?client=ripple&deviceId=d1");
    assert_eq!(LinchpinProxy::get_linchpin_url("", "d1"), "/listen?client=ripple&deviceId=d1");
}

#[test]
fn privacy_sync_settings() {
    let c = config();
    let s = get_sync_settings(SyncAndMonitorModule::Privacy, &c, session(), 7);
    assert_eq!(s.cloud_service_url, "https://ess.example.com/v1/partners/xglobal/accounts/acc");
    assert_eq!(s.cloud_monitor_topic, "topic/xglobal/acc/ripple");
    assert_eq!(s.cloud_sync_ttl, 600);
    assert_eq!(s.settings.len(), 12);
    assert_eq!(s.settings[0], "xcal:continueWatching");
    assert_eq!(s.settings[11], "xcal:cameraAnalytics");
    assert_eq!(s.callback_id, 7);
    let plan = sync_plan(&s);
    assert!(plan.subscribe);
    assert!(plan.periodic_sync);
}

#[test]
fn user_grants_sync_settings() {
    let mut c = config();
    c.sync_monitor_service.services.clear();
    let s = get_sync_settings(SyncAndMonitorModule::UserGrants, &c, session(), 1);
    assert_eq!(s.settings, vec![String::from("xcal:appDataCollection")]);
    assert_eq!(s.cloud_monitor_topic, "");
    assert_eq!(s.cloud_sync_ttl, 0);
    let plan = sync_plan(&s);
    assert!(!plan.subscribe);
    assert!(!plan.periodic_sync);
}

#[test]
fn processors_watch_their_properties() {
    let c = config();
    match get_request_processor(SyncAndMonitorModule::Privacy, &c) {
        SyncAndMonitorProcessor::Privacy(p) => assert_eq!(p.get_properties().len(), 12),
        _ => panic!("wrong processor"),
    }
    assert_eq!(PrivacySyncMonitorService::new().get_properties()[2], "xcal:watchHistory");
    assert_eq!(
        UserGrantsSyncMonitorService::new(&c.user_grants_mapping).get_properties(),
        vec![String::from("xcal:appDataCollection")]
    );
}
