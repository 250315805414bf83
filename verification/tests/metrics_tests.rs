use dpab_appsanity::config::{MetricsSchema, MetricsSchemas};
use dpab_appsanity::metrics::{
    fb_2_pabs, Action, AppBehavioralMetric, AppContext, AppGovernanceState, AppLifecycleState, AXPMetric,
    BadgerAppAction, BadgerMetrics, CategoryType, ContextOnly, InAppMediaEventType, MediaEntityEvent,
    MediaRateChanged, Param, Ready, option_string_to_pabs,
};
use dpab_appsanity::sift::{
    batch_payloads, drain_metrics, enqueue_metric, frame_payload, get_access_schema, metrics_queue, requeue_metrics,
    DeviceMetricsContext, SiftService,
};

fn metrics_schemas() -> MetricsSchemas {
    MetricsSchemas {
        default_metrics_namespace: "entos".into(),
        default_metrics_schema_version: "0".into(),
        metrics_schemas: vec![MetricsSchema {
            event_name: "app_action".into(),
            alias: Some("badger_action".into()),
            namespace: Some("badger".into()),
            version: Some("2".into()),
        }],
    }
}

fn metrics_context() -> DeviceMetricsContext {
    DeviceMetricsContext {
        device_language: "en".into(),
        device_model: "model".into(),
        device_id: "device".into(),
        account_id: "account".into(),
        device_timezone: "America/New_York".into(),
        device_name: "name".into(),
        platform: "entos".into(),
        os_ver: "1.0".into(),
        device_session_id: "session".into(),
        mac_address: "mac".into(),
        serial_number: "serial".into(),
        distribution_tenant_id: "tenant".into(),
    }
}

fn behavioral_context() -> AppContext {
    AppContext {
        app_id: "foo".into(),
        app_version: "1.0.0".into(),
        partner_id: "charter".into(),
        app_session_id: "app_session".into(),
        app_user_session_id: None,
        durable_app_id: "durable".into(),
        governance_state: None,
    }
}

fn badger_action(action: &str) -> BadgerMetrics {
    BadgerMetrics::AppAction(BadgerAppAction {
        context: behavioral_context(),
        action: action.to_string(),
        args: vec![Param { name: "asdf".to_string(), value: "fda".to_string() }],
    })
}

fn sent_form(service: &SiftService, metric: BadgerMetrics) -> Option<String> {
    service.render_badger(metric, "id".into(), 1, 0).map(|c| match c.event_payload {
        AXPMetric::BadgerAppAction(a) => format!("{}:{}", c.event_name, a.action),
        _ => c.event_name,
    })
}

fn badger_run() -> Vec<String> {
    let mut service = SiftService::new("http://localhost:9998/platco/dev".to_string(), 1, metrics_schemas(), None);
    let mut queue = metrics_queue(2);
    let ready = AppBehavioralMetric::Ready(Ready { context: behavioral_context(), ttmu_ms: 30000 });
    assert!(service.render_behavioral(ready, "e0".into(), 0, 0).is_none());
    service.set_metrics_context(Some(metrics_context()));
    for a in ["boom", "bam", "whamo"] {
        if let Some(s) = sent_form(&service, badger_action(a)) {
            enqueue_metric(&mut queue, s);
        }
    }
    drain_metrics(&mut queue)
}

#[test]
fn test_happy_badger() {
    let sent = badger_run();
    assert_eq!(sent, vec![String::from("badger_action:bam"), String::from("badger_action:whamo")]);
}

#[test]
fn test_sad_badger() {
    let sent = badger_run();
    let mut queue = metrics_queue(2);
    requeue_metrics(&mut queue, &sent);
    let again = drain_metrics(&mut queue);
    assert_eq!(again, sent);
}

#[test]
fn test_happy_firebolt() {
    let mut service = SiftService::new("http://localhost:6666/entos/dev".to_string(), 1, metrics_schemas(), None);
    service.set_metrics_context(Some(metrics_context()));
    let action = AppBehavioralMetric::Action(Action {
        context: behavioral_context(),
        category: CategoryType::User,
        parameters: vec![Param { name: "asdf".to_string(), value: "fda".to_string() }],
        _type: "user".to_string(),
    });
    let c = service.render_behavioral(action, "e1".into(), 42, -300).unwrap();
    assert_eq!(c.event_type, "firebolt");
    assert_eq!(c.event_name, "inapp_other_action");
    assert_eq!(c.event_schema, "entos/inapp_other_action/0");
    assert_eq!(c.custom_schema, "entos/custom/0");
    assert_eq!(c.app_name, "entos");
    assert_eq!(c.app_ver, "1.0.0");
    assert_eq!(c.partner_id, "charter");
    assert_eq!(c.timestamp, 42);
    assert_eq!(c.device_timezone, -300);
    assert_eq!(c.session_id, "session");
    assert_eq!(c.custom_payload.device_mac, "mac");
    assert!(c.custom_payload.access_schema.is_none());
}

#[test]
fn test_sad_firebolt() {
    let service = SiftService::new("http://localhost:6667/platco/dev".to_string(), 1, metrics_schemas(), None);
    let ready = AppBehavioralMetric::Ready(Ready { context: behavioral_context(), ttmu_ms: 30000 });
    assert!(service.render_behavioral(ready, "e".into(), 0, 0).is_none());
}

#[test]
fn ready_is_foreground_lifecycle_change() {
    match fb_2_pabs(AppBehavioralMetric::Ready(Ready { context: behavioral_context(), ttmu_ms: 1 })) {
        AXPMetric::AppLifecycleStateChange(c) => {
            assert_eq!(c.new_life_cycle_state, AppLifecycleState::Foreground);
            assert!(c.previous_life_cycle_state.is_none());
            assert_eq!(c.durable_app_id, "durable");
        }
        _ => panic!("wrong form"),
    }
}

#[test]
fn sign_in_is_user_action() {
    match fb_2_pabs(AppBehavioralMetric::SignIn(ContextOnly { context: behavioral_context() })) {
        AXPMetric::InAppOtherAction(a) => {
            assert_eq!(a.action_type, "sign_in");
            assert_eq!(a.app_user_session_id, "");
        }
        _ => panic!("wrong form"),
    }
}

#[test]
fn pause_is_reported_as_playing() {
    match fb_2_pabs(AppBehavioralMetric::MediaPause(MediaEntityEvent {
        context: behavioral_context(),
        entity_id: "e".into(),
    })) {
        AXPMetric::InAppMedia(m) => assert_eq!(m.media_event_name, InAppMediaEventType::MediaPlaying),
        _ => panic!("wrong form"),
    }
}

#[test]
fn rate_change_carries_rate() {
    match fb_2_pabs(AppBehavioralMetric::MediaRateChanged(MediaRateChanged {
        context: behavioral_context(),
        entity_id: "e".into(),
        rate: 2,
    })) {
        AXPMetric::InAppMedia(m) => {
            assert_eq!(m.media_event_name, InAppMediaEventType::MediaRateChange);
            assert_eq!(m.playback_rate, Some(2));
        }
        _ => panic!("wrong form"),
    }
}

#[test]
fn governed_app_gets_access_tags() {
    let mut ctx = behavioral_context();
    assert_eq!(get_access_schema(&ctx), None);
    ctx.governance_state = Some(AppGovernanceState { data_tags_to_apply: vec!["tag".into()] });
    assert_eq!(get_access_schema(&ctx), Some("access/tags/0".into()));
    let mut service = SiftService::new("e".into(), 1, metrics_schemas(), None);
    service.set_metrics_context(Some(metrics_context()));
    let c = service
        .render_badger(
            BadgerMetrics::AppAction(BadgerAppAction { context: ctx, action: "x".into(), args: vec![] }),
            "id".into(),
            0,
            0,
        )
        .unwrap();
    assert_eq!(c.event_type, "firebadger");
    assert_eq!(c.event_schema, "entos/badger_action/0");
    assert_eq!(c.app_ver, "foo");
    let tags = c.custom_payload.access_payload.unwrap();
    assert_eq!(tags.capabilities_exclusion_tags, vec![String::from("tag")]);
}

#[test]
fn batches_framed_as_arrays() {
    assert_eq!(frame_payload(&vec![]), "[]");
    assert_eq!(frame_payload(&vec!["1".into(), "{}".into()]), "[1,{}]");
    let batch: Vec<String> = (1..=5).map(|i| i.to_string()).collect();
    assert_eq!(batch_payloads(&batch, 2), vec![String::from("[1,2]"), String::from("[3,4]"), String::from("[5]")]);
    assert_eq!(batch_payloads(&batch, 10), vec![String::from("[1]"), String::from("[2]"), String::from("[3]"), String::from("[4]"), String::from("[5]")]);
    assert!(batch_payloads(&vec![], 3).is_empty());
}

#[test]
fn missing_text_is_empty() {
    assert_eq!(option_string_to_pabs(None), "");
    assert_eq!(option_string_to_pabs(Some("x".into())), "x");
}
