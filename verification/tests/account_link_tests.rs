use dpab_appsanity::account_link::{
    AccountLaunchpad, AccountLinkAction, AccountLinkType, AppsanityAccountLinkService, DiscoveryEntitlement,
    EntitlementsAccountLinkRequestParams, LaunchPadAccountLinkRequestParams, XvpServiceUrls,
};
use dpab_appsanity::config::CloudServiceScopes;
use dpab_appsanity::model::DistributorSession;
use dpab_appsanity::xvp::{
    MediaEvent, MediaEventsAccountLinkRequestParams, ProgressUnit, ResumePointResponse, SessionParams,
    SignInRequestParams, XvpPlayback, XvpSession, XvpVideoService, XvpVideoServiceResponse,
};

fn link_types() -> Vec<(String, AccountLinkType)> {
    vec![
        ("AccountLink".to_owned(), AccountLinkType::AccountLink),
        ("EntitlementUpdates".to_owned(), AccountLinkType::EntitlementsUpdate),
        ("LaunchPad".to_owned(), AccountLinkType::LaunchPad),
    ]
}

fn link_actions() -> Vec<(String, AccountLinkAction)> {
    vec![
        ("SignIn".to_owned(), AccountLinkAction::SignIn),
        ("SignOut".to_owned(), AccountLinkAction::SignOut),
        ("AppLaunch".to_owned(), AccountLinkAction::AppLaunch),
        ("Create".to_owned(), AccountLinkAction::Create),
        ("Delete".to_owned(), AccountLinkAction::Delete),
    ]
}

fn service(playback: &str, video: &str) -> AppsanityAccountLinkService {
    AppsanityAccountLinkService::new(
        link_types(),
        link_actions(),
        XvpServiceUrls::new(playback.to_owned(), video.to_owned()),
        CloudServiceScopes::default(),
    )
}

fn get_distributer_session() -> DistributorSession {
    DistributorSession {
        id: String::from("xglobal"),
        token: String::from("RmlyZWJvbHQgTWFuYWdlIFNESyBSb2NrcyEhIQ=="),
        account_id: String::from("0123456789"),
        device_id: String::from("9876543210"),
    }
}

#[test]
fn test_entitlements_account_link() {
    let request_params = EntitlementsAccountLinkRequestParams {
        account_link_type: Some("EntitlementUpdates".to_owned()),
        account_link_action: None,
        entitlements: vec![DiscoveryEntitlement {
            entitlement_id: String::from("123"),
            start_time: 1735689600,
            end_time: 1735689600,
        }],
        app_id: String::from("ABCDEF"),
        content_partner_id: String::from("STUVW"),
        dist_session: get_distributer_session(),
    };
    let s = service("https://example.com", "https://example.com");
    let r = s.entitlements_request(&request_params);
    assert_eq!(r.content_partner_id, "STUVW");
    let l = r.link_entitlements.unwrap();
    assert_eq!(l.account_link_type, Some(AccountLinkType::EntitlementsUpdate));
    assert_eq!(l.account_link_action, None);
    assert_eq!(l.durable_app_id, "ABCDEF");
    assert_eq!(l.entitlements.len(), 1);
    assert_eq!(l.entitlements[0].id, "123");
    assert_eq!(l.entitlements[0].start_date, 1735689600);
    assert_eq!(l.entitlements[0].end_date, 1735689600);
}

#[test]
fn test_media_events_account_link() {
    let request_params = MediaEventsAccountLinkRequestParams {
        media_event: MediaEvent {
            content_id: String::from("partner.com/entity/123"),
            completed: true,
            progress: 50.0_f32 as i64,
            progress_unit: ProgressUnit::Percent,
            watched_on: Some(String::from("2021-04-23T18:25:43.511Z")),
            app_id: String::from("ABCDEF"),
        },
        content_partner_id: String::from("STUVW"),
        client_supports_opt_out: false,
        data_tags: vec![],
        dist_session: get_distributer_session(),
    };
    let s = service("http://127.0.0.1:5555/v1", "https://example.com");
    let r = XvpPlayback::resume_point_request(s.xvp_service_urls.get_xvp_playback_url(), &request_params)
        .ok()
        .unwrap();
    assert_eq!(
        r.url,
        "http://127.0.0.1:5555/v1/partners/xglobal/accounts/0123456789/devices/9876543210/resumePoints/ott/STUVW/partner.com%2Fentity%2F123?clientId=ripple"
    );
    assert_eq!(r.token, "RmlyZWJvbHQgTWFuYWdlIFNESyBSb2NrcyEhIQ==");
    assert_eq!(
        r.body,
        "{\"durableAppId\":\"ABCDEF\",\"progress\":50,\"progressUnits\":\"Percent\",\"completed\":true,\"cet\":[],\"ownerReference\":\"xrn:subscriber:device:9876543210\"}"
    );
    let resp = ResumePointResponse {
        message_id: Some(String::from("mid")),
        sns_status_code: Some(200),
        sns_status_text: Some(String::from("text")),
        aws_request_id: Some(String::from("arid")),
    };
    let ok = XvpPlayback::resume_point_reply(200, Some(resp)).ok().unwrap();
    assert_eq!(ok.message_id, Some(String::from("mid")));
}

#[test]
fn test_launch_pad_account_link() {
    let request_params = LaunchPadAccountLinkRequestParams {
        link_launchpad: AccountLaunchpad {
            expiration: 1735689600,
            app_name: String::from("Netflix"),
            content_id: Some(String::from("partner.com/entity/123")),
            deeplink: None,
            content_url: None,
            app_id: String::from("ABCDEF"),
            title: vec![(String::from("en"), String::from("Test Description"))],
            images: vec![],
            account_link_type: "LaunchPad".to_owned(),
            account_link_action: "Create".to_owned(),
        },
        content_partner_id: String::from("STUVW"),
        dist_session: get_distributer_session(),
    };
    let s = service("https://example.com", "https://example.com");
    let r = s.launch_pad_request(&request_params);
    assert_eq!(r.content_partner_id, "STUVW");
    let l = r.link_launchpad.unwrap();
    assert_eq!(l.expiration, 1735689600);
    assert_eq!(l.app_name, "Netflix");
    assert_eq!(l.content_id, "partner.com/entity/123");
    assert_eq!(l.deeplink, "");
    assert_eq!(l.content_url, "");
    assert_eq!(l.durable_app_id, "ABCDEF");
    assert_eq!(l.title, vec![(String::from("en"), String::from("Test Description"))]);
    assert_eq!(l.images.len(), 0);
    assert_eq!(l.account_link_type, AccountLinkType::LaunchPad);
    assert_eq!(l.account_link_action, AccountLinkAction::Create);
}

#[test]
fn test_sign_in() {
    let get_distributer_session = DistributorSession {
        id: String::from("app1"),
        token: String::from("RmlyZWJvbHQgTWFuYWdlIFNESyBSb2NrcyEhIQ=="),
        account_id: String::from("0123456789"),
        device_id: String::from("9876543210"),
    };
    let request_params = SignInRequestParams {
        session_info: SessionParams { app_id: String::from("app1"), dist_session: get_distributer_session },
        is_signed_in: true,
    };
    let s = service("https://example.com", "http://127.0.0.1:5556/base_url/v1");
    let r = XvpVideoService::sign_in_request(
        s.xvp_service_urls.get_xvp_video_service_url(),
        s.xvp_data_scopes.get_xvp_sign_in_state_scope(),
        &request_params,
    )
    .ok()
    .unwrap();
    assert_eq!(
        r.url,
        "http://127.0.0.1:5556/base_url/v1/partners/app1/accounts/0123456789/videoServices/xrn:xvp:application:app1/engaged?ownerReference=xrn%3Axcal%3Asubscriber%3Aaccount%3A0123456789&clientId=ripple"
    );
    assert_eq!(r.body, "{\"eventType\":\"signIn\",\"isSignedIn\":true}");
    let resp = XvpVideoServiceResponse {
        partner_id: Some("app1".to_owned()),
        account_id: Some("0123456789".to_owned()),
        owner_reference: Some("xrn:xcal:subscriber:account:0123456789".to_owned()),
        entity_urn: Some("xrn:xvp:application:app1".to_owned()),
        entity_id: Some("app1".to_owned()),
        entity_type: Some("application".to_owned()),
        durable_app_id: Some("app1".to_owned()),
        event_type: Some("signIn".to_owned()),
        is_signed_in: Some(true),
        added: Some("2023-03-09T23:01:06.397Z".to_owned()),
        updated: Some("2023-03-13T17:32:20.610478364Z".to_owned()),
    };
    let ok = XvpVideoService::video_service_reply(200, Some(resp)).ok().unwrap();
    assert_eq!(ok.is_signed_in, Some(true));
}

#[test]
fn sign_in_in_device_scope_names_the_device() {
    let sp = SessionParams { app_id: "a".into(), dist_session: get_distributer_session() };
    let url = XvpVideoService::build_session_url("https://x.com/v1", "device", &sp).ok().unwrap();
    assert!(url.contains("ownerReference=xrn%3Axcal%3Asubscriber%3Adevice%3A9876543210"));
}

#[test]
fn session_url_names_app_and_device() {
    let sp = SessionParams { app_id: "app1".into(), dist_session: get_distributer_session() };
    let url = XvpSession::build_session_url("https://x.com/v1".into(), &sp).ok().unwrap();
    assert_eq!(
        url,
        "https://x.com/v1/partners/xglobal/accounts/0123456789/appSettings/app1?deviceId=9876543210&clientId=ripple"
    );
}

#[test]
fn bad_base_url_fails() {
    let sp = SessionParams { app_id: "app1".into(), dist_session: get_distributer_session() };
    assert!(XvpSession::build_session_url("not a url".into(), &sp).is_err());
    assert!(XvpSession::build_session_url("mailto:someone@x.com".into(), &sp).is_err());
    assert!(XvpVideoService::build_session_url("::", "account", &sp).is_err());
}

#[test]
fn xvp_replies_by_status() {
    assert!(XvpSession::session_reply(204).is_ok());
    assert!(XvpSession::session_reply(404).is_err());
    assert!(XvpVideoService::video_service_reply(204, None).is_err());
    assert!(XvpVideoService::video_service_reply(500, None).is_err());
    assert!(XvpPlayback::resume_point_reply(201, None).is_err());
    assert!(XvpPlayback::resume_point_reply(503, None).is_err());
}

#[test]
fn resume_point_body_lists_tags() {
    let p = MediaEventsAccountLinkRequestParams {
        media_event: MediaEvent {
            content_id: "c".into(),
            completed: false,
            progress: -3,
            progress_unit: ProgressUnit::Seconds,
            watched_on: None,
            app_id: "a\"b".into(),
        },
        content_partner_id: "p".into(),
        client_supports_opt_out: true,
        data_tags: vec!["t1".into(), "t2".into()],
        dist_session: get_distributer_session(),
    };
    assert_eq!(
        XvpPlayback::resume_point_body(&p),
        "{\"durableAppId\":\"a\\\"b\",\"progress\":-3,\"progressUnits\":\"Seconds\",\"completed\":false,\"cet\":[\"t1\",\"t2\"],\"ownerReference\":\"xrn:subscriber:device:9876543210\"}"
    );
}

#[test]
fn unknown_link_names_take_defaults() {
    let s = service("a", "b");
    assert_eq!(s.get_link_types(&"nope".into()), AccountLinkType::AccountLink);
    assert_eq!(s.get_link_action(&"nope".into()), AccountLinkAction::SignIn);
    assert_eq!(s.get_link_action(&"Delete".into()), AccountLinkAction::Delete);
}

#[test]
fn entitlement_times_cut_to_32_bits() {
    let s = service("a", "b");
    let e = s.get_entitlements(&vec![DiscoveryEntitlement {
        entitlement_id: "x".into(),
        start_time: 4294967296 + 5,
        end_time: -1,
    }]);
    assert_eq!(e[0].start_date, 5);
    assert_eq!(e[0].end_date, -1);
}

#[test]
fn images_keep_last_locale_per_aspect() {
    let s = service("a", "b");
    let m = s.get_images(&vec![
        ("16x9".to_owned(), vec![("en".to_owned(), "one".to_owned()), ("fr".to_owned(), "deux".to_owned())]),
        ("4x3".to_owned(), vec![("de".to_owned(), "drei".to_owned())]),
        ("4x3".to_owned(), vec![]),
    ]);
    assert_eq!(m.len(), 2);
    let i = m.get("16x9").unwrap();
    assert_eq!(i.locale, "fr");
    assert_eq!(i.image_description, "deux");
    assert_eq!(m.get("4x3").unwrap().locale, "de");
    assert!(m.get("1x1").is_none());
}

#[test]
fn service_urls_kept() {
    let u = XvpServiceUrls::new("p".into(), "v".into());
    assert_eq!(u.get_xvp_playback_url(), "p");
    assert_eq!(u.get_xvp_video_service_url(), "v");
}

#[test]
fn resume_point_body_escapes_and_writes_numbers() {
    let p = MediaEventsAccountLinkRequestParams {
        media_event: MediaEvent {
            content_id: "c".into(),
            completed: true,
            progress: 1234567890123,
            progress_unit: ProgressUnit::Percent,
            watched_on: None,
            app_id: "x\\y\n\t\u{1}é".into(),
        },
        content_partner_id: "p".into(),
        client_supports_opt_out: true,
        data_tags: vec![],
        dist_session: get_distributer_session(),
    };
    assert_eq!(
        XvpPlayback::resume_point_body(&p),
        "{\"durableAppId\":\"x\\\\y\\n\\t\\u0001é\",\"progress\":1234567890123,\"progressUnits\":\"Percent\",\"completed\":true,\"cet\":[],\"ownerReference\":\"xrn:subscriber:device:9876543210\"}"
    );
}
