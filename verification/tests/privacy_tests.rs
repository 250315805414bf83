use dpab_appsanity::model::{CapRole, DistributorSession, DpabError, GrantStatus, Role, UserGrantMapping};
use dpab_appsanity::privacy::{
    get_enitity_reference, parse_entity_reference, privacy_settings_for_sync, EssGetResponseBody, EssSetting,
    EssSettingData, EssUri, PrivacySetting, Settings,
};
use dpab_appsanity::privacy_service::{
    CloudGrantEntry, EssMethod, GetPropertyParams, PrivacyService, RawEssGetResponseBody, RawSetting,
    SetPropertyParams, UserGrantRequest, ValueType,
};

fn session() -> DistributorSession {
    DistributorSession {
        id: "xglobal".into(),
        token: "tok".into(),
        account_id: "acc1".into(),
        device_id: "dev1".into(),
    }
}

fn empty_settings() -> Settings {
    Settings {
        app_data_collection: None,
        app_entitlement_collection: None,
        continue_watching: None,
        unentitled_continue_watching: None,
        watch_history: None,
        product_analytics: None,
        personalization: None,
        unentitled_personalization: None,
        remote_diagnostics: None,
        primary_content_ad_targeting: None,
        primary_browse_ad_targeting: None,
        app_content_ad_targeting: None,
        acr: None,
        camera_analytics: None,
    }
}

fn flag(setting: PrivacySetting, allowed: Option<bool>, entity: Option<&str>) -> EssSetting {
    EssSetting::new(setting, allowed, None, None, entity.map(|e| e.to_string()), None)
}

fn mapping() -> Vec<UserGrantMapping> {
    vec![
        UserGrantMapping {
            property: "xcal:appDataCollection".into(),
            cap_role: CapRole { role: Role::Use, cap: "xrn:firebolt:capability:data:app-usage".into() },
        },
        UserGrantMapping {
            property: "xcal:watchHistory".into(),
            cap_role: CapRole { role: Role::Manage, cap: "xrn:firebolt:capability:discovery:watched".into() },
        },
    ]
}

fn service() -> PrivacyService {
    PrivacyService::new("https://ess.example.com/base".into(), session(), mapping())
}

#[test]
fn entity_reference_prefix_removed() {
    assert_eq!(parse_entity_reference(&"xrn:xvp:application:netflix".into()), Some("netflix".into()));
    assert_eq!(parse_entity_reference(&"netflix".into()), Some("netflix".into()));
    assert_eq!(parse_entity_reference(&"xrn:xvp:application:".into()), Some("".into()));
    assert_eq!(
        get_enitity_reference(vec!["xrn:xvp:application:a".into(), "b".into()]),
        vec![String::from("a"), String::from("b")]
    );
}

#[test]
fn setting_data_app_id() {
    let d = EssSettingData::new(Some(true), None, None, Some("xrn:xvp:application:app9".into()), None);
    assert_eq!(d.as_app_id(), Some("app9".into()));
    assert_eq!(EssSettingData::default().as_app_id(), None);
}

#[test]
fn setting_body_is_json_object_under_name() {
    let s = EssSetting::new(
        PrivacySetting::Acr,
        Some(false),
        None,
        Some("xrn:xcal:subscriber:account:acc1".into()),
        None,
        Some("ignored".into()),
    );
    assert_eq!(
        s.to_body(),
        "{\"xcal:acr\": {\"allowed\":false,\"expiration\":null,\"ownerReference\":\"xrn:xcal:subscriber:account:acc1\",\"entityReference\":null}}"
    );
}

#[test]
fn timestamp_text_from_seconds() {
    assert_eq!(EssSettingData::get_timestamp_str_from_duration(0), "1970-01-01T00:00:00Z");
    assert_eq!(EssSettingData::get_timestamp_str_from_duration(1735689600), "2025-01-01T00:00:00Z");
}

#[test]
fn privacy_settings_url_with_filters() {
    let uri = EssUri::new(
        "https://ess.example.com/base".into(),
        "xglobal".into(),
        "acc1".into(),
        Some(flag(PrivacySetting::AppDataCollection("app1".into()), None, None)),
        Some("app1".into()),
        Some(false),
    );
    assert_eq!(
        uri.into_privacy_settings_url().ok().unwrap(),
        "https://ess.example.com/base/v1/partners/xglobal/accounts/acc1/privacySettings?clientId=ripple&settingFilter=xcal%3AappDataCollection&entityReferenceFilter=app1&showExpired=false"
    );
    assert_eq!(
        uri.into_usage_data_exclusion_url().ok().unwrap(),
        "https://ess.example.com/base/v1/partners/xglobal/privacySettings/policy/usageDataExclusions?clientId=ripple&settingFilter=xcal%3AappDataCollection&entityReferenceFilter=app1"
    );
    let bad = EssUri::new("nope".into(), "p".into(), "a".into(), None, None, None);
    assert_eq!(bad.into_privacy_settings_url().err(), Some(DpabError::ServiceError));
}

#[test]
fn property_read_from_settings() {
    let mut s = empty_settings();
    s.watch_history = Some(flag(PrivacySetting::WatchHistory, Some(true), None));
    s.app_data_collection = Some(vec![
        flag(PrivacySetting::AppDataCollection("x".into()), Some(false), Some("xrn:xvp:application:a1")),
        flag(PrivacySetting::AppDataCollection("x".into()), Some(true), Some("xrn:xvp:application:a2")),
    ]);
    let body = EssGetResponseBody { partner_id: "p".into(), account_id: "a".into(), settings: s };
    assert_eq!(body.get_setting(PrivacySetting::WatchHistory).unwrap().data.allowed, Some(true));
    assert!(body.get_setting(PrivacySetting::Acr).is_none());
    assert_eq!(body.get_setting(PrivacySetting::AppDataCollection("a2".into())).unwrap().data.allowed, Some(true));
    assert!(body.get_setting(PrivacySetting::AppDataCollection("a3".into())).is_none());
    assert_eq!(PrivacyService::get_property_result(PrivacySetting::WatchHistory, Some(body)), Ok(true));
    assert_eq!(PrivacyService::get_property_result(PrivacySetting::Acr, None), Err(DpabError::ServiceError));
}

#[test]
fn settings_reported_and_stripped_for_sync() {
    let mut s = empty_settings();
    s.acr = Some(flag(PrivacySetting::Acr, Some(false), None));
    s.app_data_collection = Some(vec![flag(
        PrivacySetting::AppDataCollection("x".into()),
        Some(true),
        Some("xrn:xvp:application:a1"),
    )]);
    s.app_entitlement_collection = Some(vec![]);
    let body = EssGetResponseBody { partner_id: "p".into(), account_id: "a".into(), settings: s };
    let p = PrivacyService::get_properties(Some(body)).ok().unwrap();
    assert_eq!(p.acr, Some(false));
    assert_eq!(p.watch_history, None);
    let apps = p.app_data_collection.as_ref().unwrap();
    assert_eq!(apps.len(), 1);
    assert_eq!(apps[0].app_id, Some("a1".into()));
    assert_eq!(apps[0].value, Some(true));
    assert!(p.app_entitlement_collection.is_none());
    let synced = privacy_settings_for_sync(p);
    assert!(synced.app_data_collection.is_none());
    assert_eq!(synced.acr, Some(false));
    assert!(PrivacyService::get_properties(None).is_err());
}

#[test]
fn property_call_reads_one_setting() {
    let call = service()
        .get_property_call(&GetPropertyParams { setting: PrivacySetting::ContinueWatching, dist_session: session() })
        .ok()
        .unwrap();
    assert_eq!(call.method, EssMethod::Get);
    assert_eq!(call.token, "tok");
    assert_eq!(call.body, "");
    assert_eq!(
        call.url,
        "https://ess.example.com/base/v1/partners/xglobal/accounts/acc1/privacySettings?clientId=ripple&settingFilter=xcal%3AcontinueWatching&showExpired=false"
    );
}

#[test]
fn set_property_call_writes_setting() {
    let call = service()
        .set_property_call(&SetPropertyParams {
            setting: PrivacySetting::AppEntitlementCollection("app7".into()),
            value: true,
            dist_session: session(),
        })
        .ok()
        .unwrap();
    assert_eq!(call.method, EssMethod::Put);
    assert_eq!(
        call.url,
        "https://ess.example.com/base/v1/partners/xglobal/accounts/acc1/privacySettings?clientId=ripple&entityReferenceFilter=xrn%3Axvp%3Aapplication%3Aapp7"
    );
    assert_eq!(
        call.body,
        "{\"xcal:appEntitlementCollection\": {\"allowed\":true,\"expiration\":null,\"ownerReference\":\"xrn:xcal:subscriber:account:acc1\",\"entityReference\":null}}"
    );
}

fn grant(cap: &str, role: Role, status: GrantStatus, app: Option<&str>, expiry: Option<u64>) -> CloudGrantEntry {
    CloudGrantEntry {
        role,
        capability: cap.into(),
        status,
        last_modified_time: 0,
        app_name: app.map(|a| a.to_string()),
        expiry_time: expiry,
    }
}

#[test]
fn user_grant_call_under_mapped_key() {
    let call = service()
        .set_user_grant_call(&UserGrantRequest {
            grant_entry: grant(
                "xrn:firebolt:capability:data:app-usage",
                Role::Use,
                GrantStatus::Allowed,
                Some("app1"),
                Some(1735689600),
            ),
            dist_session: session(),
        })
        .ok()
        .unwrap();
    assert_eq!(call.method, EssMethod::Put);
    assert_eq!(
        call.body,
        "{\"xcal:appDataCollection\": [{\"allowed\":true,\"expiration\":\"2025-01-01T00:00:00Z\",\"ownerReference\":\"xrn:xcal:subscriber:account:acc1\",\"entityReference\":\"xrn:xvp:application:app1\"}]}"
    );
    assert_eq!(
        call.url,
        "https://ess.example.com/base/v1/partners/xglobal/accounts/acc1/privacySettings?clientId=ripple&entityReferenceFilter=xrn%3Axvp%3Aapplication%3Aapp1"
    );
}

#[test]
fn user_grant_without_mapping_is_no_data() {
    let r = service().set_user_grant_call(&UserGrantRequest {
        grant_entry: grant("xrn:firebolt:capability:data:app-usage", Role::Manage, GrantStatus::Denied, None, None),
        dist_session: session(),
    });
    assert_eq!(r.err(), Some(DpabError::NotDataFound));
}

#[test]
fn grants_from_raw_settings() {
    let raw = RawEssGetResponseBody {
        partner_id: "p".into(),
        account_id: "a".into(),
        settings: vec![
            RawSetting {
                key: "xcal:appDataCollection".into(),
                value: Some(ValueType::Many(vec![
                    EssSettingData::new(
                        Some(true),
                        Some("2025-01-01T00:00:00Z".into()),
                        None,
                        Some("xrn:xvp:application:a1".into()),
                        Some("1970-01-01T00:01:00Z".into()),
                    ),
                    EssSettingData::new(None, Some("garbage".into()), None, None, None),
                ])),
            },
            RawSetting {
                key: "xcal:acr".into(),
                value: Some(ValueType::Single(EssSettingData::new(Some(true), None, None, None, None))),
            },
            RawSetting {
                key: "xcal:watchHistory".into(),
                value: Some(ValueType::Single(EssSettingData::new(Some(false), None, None, None, None))),
            },
            RawSetting { key: "xcal:watchHistory".into(), value: None },
        ],
    };
    let grants = service().get_user_grants(Some(raw)).ok().unwrap();
    assert_eq!(grants.len(), 3);
    assert_eq!(grants[0].capability, "xrn:firebolt:capability:data:app-usage");
    assert_eq!(grants[0].role, Role::Use);
    assert_eq!(grants[0].status, GrantStatus::Allowed);
    assert_eq!(grants[0].last_modified_time, 60);
    assert_eq!(grants[0].expiry_time, Some(1735689600));
    assert_eq!(grants[0].app_name, Some("a1".into()));
    assert_eq!(grants[1].status, GrantStatus::Denied);
    assert_eq!(grants[1].expiry_time, Some(0));
    assert_eq!(grants[1].app_name, None);
    assert_eq!(grants[2].capability, "xrn:firebolt:capability:discovery:watched");
    assert_eq!(grants[2].role, Role::Manage);
    assert_eq!(grants[2].status, GrantStatus::Denied);
    assert!(service().get_user_grants(None).is_err());
}

#[test]
fn time_text_parsed_to_seconds() {
    assert_eq!(RawEssGetResponseBody::date_str_to_std_duration_from_epoch("1970-01-02T00:00:00Z"), Some(86400));
    assert_eq!(RawEssGetResponseBody::date_str_to_std_duration_from_epoch("yesterday"), None);
    assert_eq!(RawEssGetResponseBody::date_str_to_std_duration_from_epoch("1969-12-31T23:59:59Z"), None);
}

#[test]
fn ess_replies_by_status() {
    assert_eq!(PrivacyService::ess_reply(200, Some("b".into())), Ok("b".into()));
    assert_eq!(PrivacyService::ess_reply(200, None), Err(DpabError::ServiceError));
    assert_eq!(PrivacyService::ess_reply(404, Some("b".into())), Err(DpabError::NotDataFound));
    assert_eq!(PrivacyService::ess_reply(500, None), Err(DpabError::ServiceError));
}

#[test]
fn setting_names() {
    assert_eq!(dpab_appsanity::privacy::privacy_setting_name(&PrivacySetting::CameraAnalytics), "xcal:cameraAnalytics");
    assert_eq!(EssSetting::default().name, "");
}

#[test]
fn written_grant_reads_back() {
    let d = EssSettingData::new(Some(true), None, None, Some("xrn:xvp:application:app1".into()), None);
    let cr = CapRole { role: Role::Use, cap: "c".into() };
    let g = RawEssGetResponseBody::get_cloud_entry(&d, &cr);
    assert_eq!(g.app_name, Some("app1".into()));
    assert_eq!(g.status, GrantStatus::Allowed);
    let denied = RawEssGetResponseBody::get_cloud_entry(&EssSettingData::new(Some(false), None, None, None, None), &cr);
    assert_eq!(denied.status, GrantStatus::Denied);
}

#[test]
fn latest_time_chrono_can_write() {
    let text = EssSettingData::get_timestamp_str_from_duration(dpab_appsanity::times::MAX_CHRONO_SECONDS);
    assert!(text.ends_with("-12-31T23:59:59Z"));
}
