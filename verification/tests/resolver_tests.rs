use dpab_appsanity::model::{DistributorSession, DpabError};
use dpab_appsanity::resolver::{
    decorate_request_with_session, thor_token_request, AppsanityServiceResolver, ChannelUse, DelegateKind,
    DiscoveryService, GrpcClientSession, PayloadKind,
};

fn resolver(catalog_enabled: bool) -> AppsanityServiceResolver {
    AppsanityServiceResolver { session_token: String::new(), catalog_enabled }
}

#[test]
fn test_resolve_ad_app_sanity() {
    let mut r = resolver(false);
    assert_eq!(r.resolve(&PayloadKind::Advertising), Ok(Some(DelegateKind::Advertising)));
}

#[test]
fn test_resolve_auth_app_sanity() {
    let mut r = resolver(false);
    assert_eq!(r.resolve(&PayloadKind::Auth), Ok(Some(DelegateKind::Auth)));
}

#[test]
fn test_connection_failure() {
    let mut r = resolver(false);
    assert_eq!(r.resolve(&PayloadKind::Auth), Ok(Some(DelegateKind::Auth)));
    assert_eq!(r.session_token, "");
}

#[test]
fn test_handle_platform_token() {
    let req = thor_token_request(
        String::from("App_1"),
        String::from("xumo"),
        String::from("device_session_id"),
        String::from("app_session_id"),
    );
    assert_eq!(req.app, "App_1");
    assert_eq!(req.content_provider, "xumo");
    assert_eq!(req.device_session_id, "device_session_id");
    assert_eq!(req.app_session_id, "app_session_id");
    assert_eq!(req.token_mode, "untrusted");
    assert_eq!(req.ttl, 3600);
}

#[test]
fn metrics_set_the_session_token() {
    let mut r = resolver(false);
    assert_eq!(r.resolve(&PayloadKind::AppMetric("t1".into())), Ok(Some(DelegateKind::Sift)));
    assert_eq!(r.session_token, "t1");
    assert_eq!(r.resolve(&PayloadKind::BadgerMetric("t2".into())), Ok(Some(DelegateKind::Sift)));
    assert_eq!(r.session_token, "t2");
    assert_eq!(r.resolve(&PayloadKind::Privacy), Ok(Some(DelegateKind::Privacy)));
    assert_eq!(r.session_token, "t2");
}

#[test]
fn apps_go_to_catalog_only_when_enabled() {
    assert_eq!(resolver(true).resolve(&PayloadKind::Apps), Ok(Some(DelegateKind::Catalog)));
    assert_eq!(resolver(false).resolve(&PayloadKind::Apps), Ok(None));
}

#[test]
fn user_grants_go_to_privacy_and_unknown_refused() {
    let mut r = resolver(true);
    assert_eq!(r.resolve(&PayloadKind::UserGrants), Ok(Some(DelegateKind::Privacy)));
    assert_eq!(r.resolve(&PayloadKind::SyncAndMonitor), Ok(Some(DelegateKind::SyncAndMonitor)));
    assert_eq!(r.resolve(&PayloadKind::SecureStorage), Ok(Some(DelegateKind::SecureStorage)));
    assert_eq!(r.resolve(&PayloadKind::Discovery), Ok(Some(DelegateKind::Discovery)));
    assert_eq!(r.resolve(&PayloadKind::AccountLink), Ok(Some(DelegateKind::AccountLink)));
    assert_eq!(r.resolve(&PayloadKind::Permission), Ok(Some(DelegateKind::Permission)));
    assert_eq!(r.resolve(&PayloadKind::Other), Err(DpabError::ServiceError));
}

#[test]
fn session_metadata_in_order() {
    let s = DistributorSession {
        id: "id_1".into(),
        token: "tok".into(),
        account_id: "acc".into(),
        device_id: "dev".into(),
    };
    let m = decorate_request_with_session(&s);
    assert_eq!(
        m,
        vec![
            ("authorization".to_string(), "Bearer tok".to_string()),
            ("deviceid".to_string(), "dev".to_string()),
            ("accountid".to_string(), "acc".to_string()),
            ("partnerid".to_string(), "id_1".to_string()),
        ]
    );
}

#[test]
fn channel_reused_while_fresh() {
    let mut g = GrpcClientSession::new(0);
    assert_eq!(g.get_grpc_channel(10), ChannelUse::Connect);
    assert_eq!(g.get_grpc_channel(10 + 239_999_999_999), ChannelUse::Reuse);
    let last = g.last_accessed_time;
    assert_eq!(g.get_grpc_channel(last + 240_000_000_000), ChannelUse::Connect);
    assert_eq!(g.get_grpc_channel(5), ChannelUse::Reuse);
    assert!(g.has_channel);
}

#[test]
fn discovery_service_endpoint() {
    assert_eq!(DiscoveryService::new("e".into()).endpoint, "e");
}
