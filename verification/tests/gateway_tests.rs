use dpab_appsanity::gateway_state::{AppsanityGateway, GatewayState, StateReply, StateRequest};
use dpab_appsanity::model::{DistributorSession, SyncAndMonitorModule};
use dpab_appsanity::sync::{CloudLinchpinMonitor, LinchpinProxyCommand, SubscribeEvent, SubscribePhase, SubscribeStep};
use dpab_appsanity::sync_settings::SyncSettings;

fn listener(topic: &str, settings: &[&str], module: SyncAndMonitorModule, id: u64) -> SyncSettings {
    SyncSettings {
        module,
        dist_session: DistributorSession { id: "p".into(), token: "t".into(), account_id: "a".into(), device_id: "d".into() },
        cloud_service_url: "u".into(),
        cloud_sync_ttl: 0,
        cloud_monitor_topic: topic.into(),
        settings: settings.iter().map(|s| s.to_string()).collect(),
        callback_id: id,
        user_grants_mapping: vec![],
    }
}

fn run(state: &mut GatewayState, r: StateRequest) -> StateReply {
    AppsanityGateway::process_state_request(state, r)
}

#[test]
fn token_and_status_read_back() {
    let mut s = GatewayState::new();
    match run(&mut s, StateRequest::GetDistributorToken) {
        StateReply::Token(t) => assert_eq!(t, ""),
        _ => panic!("wrong reply"),
    }
    run(&mut s, StateRequest::SetDistributorToken("sat".into()));
    match run(&mut s, StateRequest::GetDistributorToken) {
        StateReply::Token(t) => assert_eq!(t, "sat"),
        _ => panic!("wrong reply"),
    }
    run(&mut s, StateRequest::SetLinchpinConnectionStatus(true));
    match run(&mut s, StateRequest::GetLinchpinConnectionStatus) {
        StateReply::ConnectionStatus(b) => assert!(b),
        _ => panic!("wrong reply"),
    }
}

#[test]
fn pending_topics_listed_and_cleared() {
    let mut s = GatewayState::new();
    run(&mut s, StateRequest::AddPendingTopic("t1".into()));
    run(&mut s, StateRequest::AddPendingTopic("t2".into()));
    match run(&mut s, StateRequest::GetAllPendingTopics) {
        StateReply::Topics(t) => assert_eq!(t, vec![String::from("t1"), String::from("t2")]),
        _ => panic!("wrong reply"),
    }
    run(&mut s, StateRequest::ClearPendingTopics);
    match run(&mut s, StateRequest::GetAllPendingTopics) {
        StateReply::Topics(t) => assert!(t.is_empty()),
        _ => panic!("wrong reply"),
    }
}

#[test]
fn listeners_found_by_properties_and_module() {
    let mut s = GatewayState::new();
    run(&mut s, StateRequest::AddListener(listener("top", &["a", "b"], SyncAndMonitorModule::Privacy, 1)));
    run(&mut s, StateRequest::AddListener(listener("top", &["c"], SyncAndMonitorModule::UserGrants, 2)));
    run(&mut s, StateRequest::AddListener(listener("top", &["a", "b"], SyncAndMonitorModule::Privacy, 3)));
    match run(&mut s, StateRequest::GetListeningTopics) {
        StateReply::Topics(t) => assert_eq!(t, vec![String::from("top")]),
        _ => panic!("wrong reply"),
    }
    match run(&mut s, StateRequest::GetListenersForProperties("top".into(), vec!["a".into()])) {
        StateReply::Listeners(l) => {
            assert_eq!(l.len(), 1);
            assert_eq!(l[0].callback_id, 1);
        }
        _ => panic!("wrong reply"),
    }
    match run(&mut s, StateRequest::GetListenersForModule("top".into(), SyncAndMonitorModule::UserGrants)) {
        StateReply::Listeners(l) => {
            assert_eq!(l.len(), 1);
            assert_eq!(l[0].callback_id, 2);
        }
        _ => panic!("wrong reply"),
    }
    run(&mut s, StateRequest::RemoveListener(listener("top", &["c"], SyncAndMonitorModule::Privacy, 9)));
    match run(&mut s, StateRequest::GetListenersForModule("top".into(), SyncAndMonitorModule::UserGrants)) {
        StateReply::Listeners(l) => assert!(l.is_empty()),
        _ => panic!("wrong reply"),
    }
    match run(&mut s, StateRequest::GetListenersForProperties("nope".into(), vec![])) {
        StateReply::Listeners(l) => assert!(l.is_empty()),
        _ => panic!("wrong reply"),
    }
}

#[test]
fn subscribe_decisions() {
    let l = listener("top", &["a"], SyncAndMonitorModule::Privacy, 1);
    match CloudLinchpinMonitor::on_connection_status(&l, true, "wss://l", "d", "sat") {
        SubscribeStep::AskListeningTopics => {}
        _ => panic!("should ask for topics"),
    }
    match CloudLinchpinMonitor::on_connection_status(&l, false, "wss://l", "d", "sat") {
        SubscribeStep::Connect { pending_topic, command: LinchpinProxyCommand::Connect(u, d, s) } => {
            assert_eq!(pending_topic, "top");
            assert_eq!((u.as_str(), d.as_str(), s.as_str()), ("wss://l", "d", "sat"));
        }
        _ => panic!("should connect"),
    }
    assert!(CloudLinchpinMonitor::on_listening_topics(&"top".into(), &vec!["top".into()]).is_none());
    match CloudLinchpinMonitor::on_listening_topics(&"top".into(), &vec!["other".into()]) {
        Some(LinchpinProxyCommand::Subscribe(t)) => assert_eq!(t, "top"),
        _ => panic!("should subscribe"),
    }
    let cmds = CloudLinchpinMonitor::on_connected(&vec!["x".into(), "y".into()]);
    assert_eq!(cmds.len(), 2);
    match &cmds[1] {
        LinchpinProxyCommand::Subscribe(t) => assert_eq!(t, "y"),
        _ => panic!("should subscribe"),
    }
}

#[test]
fn run_of_requests_answers_from_last_writes() {
    let mut s = GatewayState::new();
    run(&mut s, StateRequest::SetDistributorToken("a".into()));
    run(&mut s, StateRequest::AddPendingTopic("x".into()));
    run(&mut s, StateRequest::ClearPendingTopics);
    run(&mut s, StateRequest::AddPendingTopic("y".into()));
    run(&mut s, StateRequest::AddPendingTopic("y".into()));
    run(&mut s, StateRequest::SetDistributorToken("b".into()));
    run(&mut s, StateRequest::AddListener(listener("t", &["p1", "p2"], SyncAndMonitorModule::Privacy, 1)));
    run(&mut s, StateRequest::AddListener(listener("t", &["p1"], SyncAndMonitorModule::Privacy, 2)));
    run(&mut s, StateRequest::AddListener(listener("t", &["p1", "p2"], SyncAndMonitorModule::Privacy, 3)));
    run(&mut s, StateRequest::RemoveListener(listener("t", &["p1"], SyncAndMonitorModule::Privacy, 9)));
    match run(&mut s, StateRequest::GetDistributorToken) {
        StateReply::Token(t) => assert_eq!(t, "b"),
        _ => panic!("wrong reply"),
    }
    match run(&mut s, StateRequest::GetLinchpinConnectionStatus) {
        StateReply::ConnectionStatus(b) => assert!(!b),
        _ => panic!("wrong reply"),
    }
    match run(&mut s, StateRequest::GetAllPendingTopics) {
        StateReply::Topics(t) => assert_eq!(t, vec![String::from("y"), String::from("y")]),
        _ => panic!("wrong reply"),
    }
    match run(&mut s, StateRequest::GetListenersForProperties("t".into(), vec!["p1".into()])) {
        StateReply::Listeners(l) => {
            assert_eq!(l.len(), 1);
            assert_eq!(l[0].callback_id, 1);
        },
        _ => panic!("wrong reply"),
    }
    match run(&mut s, StateRequest::GetListenersForProperties("other".into(), vec![])) {
        StateReply::Listeners(l) => assert!(l.is_empty()),
        _ => panic!("wrong reply"),
    }
}

fn requests_text(requests: &[StateRequest]) -> Vec<String> {
    requests
        .iter()
        .map(|r| match r {
            StateRequest::SetDistributorToken(t) => format!("token:{}", t),
            StateRequest::GetLinchpinConnectionStatus => "status?".to_string(),
            StateRequest::GetListeningTopics => "topics?".to_string(),
            StateRequest::AddPendingTopic(t) => format!("pending:{}", t),
            StateRequest::AddListener(l) => format!("listener:{}", l.callback_id),
            _ => "other".to_string(),
        })
        .collect()
}

fn commands_text(commands: &[LinchpinProxyCommand]) -> Vec<String> {
    commands
        .iter()
        .map(|c| match c {
            LinchpinProxyCommand::Connect(u, d, s) => format!("connect:{}:{}:{}", u, d, s),
            LinchpinProxyCommand::Subscribe(t) => format!("subscribe:{}", t),
            _ => "other".to_string(),
        })
        .collect()
}

#[test]
fn subscription_while_disconnected_waits_and_connects() {
    let l = listener("topic", &["p"], SyncAndMonitorModule::Privacy, 4);
    let a = CloudLinchpinMonitor::subscribe_step(SubscribePhase::Start, SubscribeEvent::Begin, &l, "wss://lp", "dev", "sat");
    assert_eq!(a.phase, SubscribePhase::AwaitStatus);
    assert_eq!(requests_text(&a.requests), vec!["token:sat", "status?"]);
    assert!(a.commands.is_empty());
    let b = CloudLinchpinMonitor::subscribe_step(a.phase, SubscribeEvent::Status(false), &l, "wss://lp", "dev", "sat");
    assert_eq!(b.phase, SubscribePhase::Done);
    assert_eq!(requests_text(&b.requests), vec!["pending:topic", "listener:4"]);
    assert_eq!(commands_text(&b.commands), vec!["connect:wss://lp:dev:sat"]);
}

#[test]
fn subscription_while_connected_subscribes_new_topics_only() {
    let l = listener("topic", &["p"], SyncAndMonitorModule::Privacy, 5);
    let b = CloudLinchpinMonitor::subscribe_step(SubscribePhase::AwaitStatus, SubscribeEvent::Status(true), &l, "u", "d", "s");
    assert_eq!(b.phase, SubscribePhase::AwaitTopics);
    assert_eq!(requests_text(&b.requests), vec!["topics?"]);
    let c = CloudLinchpinMonitor::subscribe_step(b.phase, SubscribeEvent::Topics(vec!["other".into()]), &l, "u", "d", "s");
    assert_eq!(c.phase, SubscribePhase::Done);
    assert_eq!(requests_text(&c.requests), vec!["listener:5"]);
    assert_eq!(commands_text(&c.commands), vec!["subscribe:topic"]);
    let d = CloudLinchpinMonitor::subscribe_step(SubscribePhase::AwaitTopics, SubscribeEvent::Topics(vec!["topic".into()]), &l, "u", "d", "s");
    assert!(d.commands.is_empty());
    assert_eq!(requests_text(&d.requests), vec!["listener:5"]);
    let e = CloudLinchpinMonitor::subscribe_step(SubscribePhase::AwaitStatus, SubscribeEvent::NoAnswer, &l, "u", "d", "s");
    assert_eq!(e.phase, SubscribePhase::Done);
    assert!(e.requests.is_empty() && e.commands.is_empty());
}
