use vstd::prelude::*;
use vstd::string::*;

use crate::config::{opt_view, service_name, topic_for_service, ttl_for_service, AppsanityConfig};
use crate::model::{
    copy_mapping, mapping_views, views, DistributorSession, DistributorSessionView, DpabError,
    SyncAndMonitorModule, UserGrantMapping, UserGrantMappingView, unique_properties,
};
use crate::privacy::{privacy_settings_for_sync, PrivacySettings};
use crate::privacy_service::{call_view, settings_call, CloudGrantEntry, EssCall, PrivacyService};
use crate::gateway_state::StateRequest;
use crate::sync_settings::SyncSettings;
use crate::text::{concat, is_prefix, starts_with};

verus! {

/// `s` with every occurrence of `from`, from left to right and without
/// overlap, replaced by `to`.
pub open spec fn replace_all(s: Seq<char>, from: Seq<char>, to: Seq<char>) -> Seq<char>
    decreases s.len(),
{
    if from.len() == 0 || s.len() < from.len() {
        s
    } else if s.subrange(0, from.len() as int) == from {
        to + replace_all(s.skip(from.len() as int), from, to)
    } else {
        seq![s[0]] + replace_all(s.skip(1), from, to)
    }
}

/// `s` with every occurrence of `from` replaced by `to` (as `str::replace`
/// does for a pattern that is not empty).
pub fn replace_text(s: &str, from: &str, to: &str) -> (r: String)
    requires
        from@.len() > 0,
    ensures
        r@ == replace_all(s@, from@, to@),
{
    let n = s.unicode_len();
    let m = from.unicode_len();
    let mut out = String::new();
    let mut i: usize = 0;
    assert(s@.skip(0) =~= s@);
    while i < n
        invariant
            n == s@.len(),
            m == from@.len(),
            m > 0,
            i <= n,
            out@ + replace_all(s@.skip(i as int), from@, to@) == replace_all(s@, from@, to@),
        decreases n - i,
    {
        let rest = s.substring_char(i, n);
        assert(rest@ =~= s@.skip(i as int));
        if n - i >= m && starts_with(rest, from) {
            let ghost before = out@;
            assert(s@.skip(i as int).skip(m as int) =~= s@.skip(i + m));
            out = concat(out.as_str(), to);
            assert(before + replace_all(s@.skip(i as int), from@, to@) == before + (to@ + replace_all(
                s@.skip(i + m),
                from@,
                to@,
            )));
            assert(before + (to@ + replace_all(s@.skip(i + m), from@, to@)) =~= (before + to@) + replace_all(
                s@.skip(i + m),
                from@,
                to@,
            ));
            i = i + m;
        } else {
            let ghost before = out@;
            let one = s.substring_char(i, i + 1);
            assert(one@ =~= seq![s@[i as int]]);
            assert(s@.skip(i as int).skip(1) =~= s@.skip(i + 1));
            if n - i < m {
                assert(s@.skip(i + 1).len() < m);
                assert(replace_all(s@.skip(i + 1), from@, to@) == s@.skip(i + 1));
                assert(s@.skip(i as int) =~= seq![s@[i as int]] + s@.skip(i + 1));
            }
            out = concat(out.as_str(), one);
            assert(before + replace_all(s@.skip(i as int), from@, to@) =~= (before + one@) + replace_all(
                s@.skip(i + 1),
                from@,
                to@,
            ));
            i = i + 1;
        }
    }
    assert(s@.skip(n as int).len() == 0);
    assert(out@ + Seq::<char>::empty() =~= out@);
    out
}

/// A URL or topic template with the partner, account and client put in.
pub open spec fn uri_with_variables(base: Seq<char>, s: DistributorSessionView) -> Seq<char> {
    replace_all(
        replace_all(replace_all(base, "{partnerId}"@, s.id), "{accountId}"@, s.account_id),
        "{clientId}"@,
        "ripple"@,
    )
}

/// The template `base` with `{partnerId}`, `{accountId}` and `{clientId}`
/// replaced by the session's partner, its account and "ripple".
pub fn replace_uri_variables(base: &str, dist_session: &DistributorSession) -> (r: String)
    ensures
        r@ == uri_with_variables(base@, dist_session@),
{
    proof {
        reveal_strlit("{partnerId}");
        reveal_strlit("{accountId}");
        reveal_strlit("{clientId}");
    }
    let a = replace_text(base, "{partnerId}", dist_session.id.as_str());
    let b = replace_text(a.as_str(), "{accountId}", dist_session.account_id.as_str());
    replace_text(b.as_str(), "{clientId}", "ripple")
}

/// The commands of the linchpin connection.
pub enum LinchpinProxyCommand {
    Connect(String, String, String),
    Subscribe(String),
    Unsubscribe(String),
    UpdateDistributorToken(String),
}

/// Whether `c` subscribes to `topic`.
pub open spec fn subscribes_to(c: LinchpinProxyCommand, topic: Seq<char>) -> bool {
    c matches LinchpinProxyCommand::Subscribe(t) && t@ == topic
}

/// Whether `c` opens the connection at `url` for device `dev` with token `sat`.
pub open spec fn connects(c: LinchpinProxyCommand, url: Seq<char>, dev: Seq<char>, sat: Seq<char>) -> bool {
    c matches LinchpinProxyCommand::Connect(u, d, s) && u@ == url && d@ == dev && s@ == sat
}

/// Why a value could not be read from a notification.
#[derive(Clone, Copy, Debug, PartialEq, Eq, Structural)]
pub enum ConvertError {
    NoKeyPresent,
    KeyHasNoValue,
    GenericError,
}

/// The linchpin connection.
pub struct LinchpinProxy {}

/// The URL that the linchpin connection of a device listens on.
pub open spec fn linchpin_url(base: Seq<char>, dev_id: Seq<char>) -> Seq<char> {
    if base.len() > 0 && base.last() == '/' {
        base + "listen?client=ripple&deviceId="@ + dev_id
    } else {
        base + "/listen?client=ripple&deviceId="@ + dev_id
    }
}

impl LinchpinProxy {
    /// The URL that the linchpin connection of device `dev_id` listens on.
    pub fn get_linchpin_url(base_url: &str, dev_id: &str) -> (r: String)
        ensures
            r@ == linchpin_url(base_url@, dev_id@),
    {
        let n = base_url.unicode_len();
        let a = if n > 0 && base_url.get_char(n - 1) == '/' {
            concat(base_url, "listen?client=ripple&deviceId=")
        } else {
            concat(base_url, "/listen?client=ripple&deviceId=")
        };
        concat(a.as_str(), dev_id)
    }
}

/// The privacy properties that are synchronised and monitored.
pub open spec fn privacy_properties() -> Seq<Seq<char>> {
    seq![
        "xcal:continueWatching"@,
        "xcal:unentitledContinueWatching"@,
        "xcal:watchHistory"@,
        "xcal:productAnalytics"@,
        "xcal:personalization"@,
        "xcal:unentitledPersonalization"@,
        "xcal:remoteDiagnostics"@,
        "xcal:primaryContentAdTargeting"@,
        "xcal:primaryBrowseAdTargeting"@,
        "xcal:appContentAdTargeting"@,
        "xcal:acr"@,
        "xcal:cameraAnalytics"@,
    ]
}

fn push_name(v: &mut Vec<String>, s: &str)
    ensures
        views(final(v)@) == views(old(v)@).push(s@),
{
    let ghost before = v@;
    v.push(s.to_owned());
    assert(views(v@) =~= views(before).push(s@));
}

/// The synchronisation of privacy settings.
pub struct PrivacySyncMonitorService {}

impl PrivacySyncMonitorService {
    /// The privacy synchronisation.
    pub fn new() -> (r: PrivacySyncMonitorService) {
        PrivacySyncMonitorService {}
    }

    /// The privacy properties that are synchronised and monitored.
    pub fn get_properties(&self) -> (r: Vec<String>)
        ensures
            views(r@) == privacy_properties(),
    {
        let mut v: Vec<String> = Vec::new();
        push_name(&mut v, "xcal:continueWatching");
        push_name(&mut v, "xcal:unentitledContinueWatching");
        push_name(&mut v, "xcal:watchHistory");
        push_name(&mut v, "xcal:productAnalytics");
        push_name(&mut v, "xcal:personalization");
        push_name(&mut v, "xcal:unentitledPersonalization");
        push_name(&mut v, "xcal:remoteDiagnostics");
        push_name(&mut v, "xcal:primaryContentAdTargeting");
        push_name(&mut v, "xcal:primaryBrowseAdTargeting");
        push_name(&mut v, "xcal:appContentAdTargeting");
        push_name(&mut v, "xcal:acr");
        push_name(&mut v, "xcal:cameraAnalytics");
        assert(views(v@) =~= privacy_properties());
        v
    }
}

/// The settings keys of a user grants mapping, in order.
pub open spec fn mapping_properties(m: Seq<UserGrantMappingView>) -> Seq<Seq<char>> {
    m.map_values(|e: UserGrantMappingView| e.property)
}

/// The synchronisation of user grants: the settings keys that grant capabilities.
pub struct UserGrantsSyncMonitorService {
    pub supported_properties: Vec<String>,
}

impl UserGrantsSyncMonitorService {
    /// The user grants synchronisation for the keys of `mapping`.
    pub fn new(mapping: &Vec<UserGrantMapping>) -> (r: UserGrantsSyncMonitorService)
        requires
            unique_properties(mapping_views(mapping@)),
        ensures
            views(r.supported_properties@) == mapping_properties(mapping_views(mapping@)),
            views(r.supported_properties@).no_duplicates(),
    {
        let mut v: Vec<String> = Vec::new();
        let mut i: usize = 0;
        while i < mapping.len()
            invariant
                i <= mapping@.len(),
                views(v@) =~= mapping_properties(mapping_views(mapping@.take(i as int))),
            decreases mapping@.len() - i,
        {
            let ghost before = v@;
            v.push(mapping[i].property.clone());
            assert(mapping_views(mapping@.take(i + 1)) =~= mapping_views(mapping@.take(i as int)).push(mapping@[i as int]@));
            assert(views(v@) =~= views(before).push(mapping@[i as int].property@));
            i = i + 1;
        }
        assert(mapping@.take(mapping@.len() as int) =~= mapping@);
        proof {
            let mv = mapping_views(mapping@);
            let ps = views(v@);
            assert forall|a: int, b: int| 0 <= a < ps.len() && 0 <= b < ps.len() && a != b implies ps[a] != ps[b] by {
                assert(ps[a] == mv[a].property && ps[b] == mv[b].property);
                if a < b {
                    assert(mv[a].property != mv[b].property);
                } else {
                    assert(mv[b].property != mv[a].property);
                }
            }
        }
        UserGrantsSyncMonitorService { supported_properties: v }
    }

    /// The settings keys that grant capabilities.
    pub fn get_properties(&self) -> (r: Vec<String>)
        ensures
            views(r@) == views(self.supported_properties@),
    {
        crate::model::copy_strings(&self.supported_properties)
    }
}

/// What the cloud answers a synchronisation with.
pub enum SyncResponse {
    Privacy(PrivacySettings),
    UserGrants(Vec<CloudGrantEntry>),
}

/// The processing of the cloud values of one kind of synchronised data.
pub enum SyncAndMonitorProcessor {
    Privacy(PrivacySyncMonitorService),
    UserGrants(UserGrantsSyncMonitorService),
}

/// The properties that the processor of `module` watches.
pub open spec fn module_properties(module: SyncAndMonitorModule, m: Seq<UserGrantMappingView>) -> Seq<Seq<char>> {
    match module {
        SyncAndMonitorModule::Privacy => privacy_properties(),
        SyncAndMonitorModule::UserGrants => mapping_properties(m),
    }
}

impl SyncAndMonitorProcessor {
    /// The properties that this processor watches.
    pub fn get_properties(&self) -> (r: Vec<String>)
        ensures
            views(r@) == match self {
                SyncAndMonitorProcessor::Privacy(_) => privacy_properties(),
                SyncAndMonitorProcessor::UserGrants(u) => views(u.supported_properties@),
            },
    {
        match self {
            SyncAndMonitorProcessor::Privacy(p) => p.get_properties(),
            SyncAndMonitorProcessor::UserGrants(u) => u.get_properties(),
        }
    }

    /// What a subscriber is sent of a cloud answer: privacy settings without the
    /// application collections, which belong to user grants; user grants as
    /// they are; nothing for an answer of the other kind.
    pub fn process_response(&self, response: SyncResponse) -> (r: Option<SyncResponse>)
        ensures
            match (self, response) {
                (SyncAndMonitorProcessor::Privacy(_), SyncResponse::Privacy(s)) => r matches Some(
                    SyncResponse::Privacy(t),
                ) && t == (PrivacySettings { app_data_collection: None, app_entitlement_collection: None, ..s }),
                (SyncAndMonitorProcessor::UserGrants(_), SyncResponse::UserGrants(g)) => r matches Some(
                    SyncResponse::UserGrants(h),
                ) && h == g,
                _ => r is None,
            },
    {
        match (self, response) {
            (SyncAndMonitorProcessor::Privacy(_), SyncResponse::Privacy(s)) => Some(
                SyncResponse::Privacy(privacy_settings_for_sync(s)),
            ),
            (SyncAndMonitorProcessor::UserGrants(_), SyncResponse::UserGrants(g)) => Some(
                SyncResponse::UserGrants(g),
            ),
            _ => None,
        }
    }
}

/// The processor of `module` under the gateway's settings.
pub fn get_request_processor(module: SyncAndMonitorModule, appsanity_config: &AppsanityConfig) -> (r: SyncAndMonitorProcessor)
    requires
        unique_properties(mapping_views(appsanity_config.user_grants_mapping@)),
    ensures
        match module {
            SyncAndMonitorModule::Privacy => r is Privacy,
            SyncAndMonitorModule::UserGrants => r matches SyncAndMonitorProcessor::UserGrants(u) && views(
                u.supported_properties@,
            ) == mapping_properties(mapping_views(appsanity_config.user_grants_mapping@)),
        },
{
    match module {
        SyncAndMonitorModule::Privacy => SyncAndMonitorProcessor::Privacy(PrivacySyncMonitorService::new()),
        SyncAndMonitorModule::UserGrants => SyncAndMonitorProcessor::UserGrants(
            UserGrantsSyncMonitorService::new(&appsanity_config.user_grants_mapping),
        ),
    }
}

/// The text of an optional text, or the empty text.
pub open spec fn or_empty(o: Option<Seq<char>>) -> Seq<char> {
    match o {
        Some(s) => s,
        None => Seq::empty(),
    }
}

/// The linchpin topic that the privacy service of `c` is announced on, if any.
pub open spec fn privacy_topic(c: AppsanityConfig) -> Option<Seq<char>> {
    match service_name(c, c.privacy_service.url@) {
        Some(name) => topic_for_service(c, name),
        None => None,
    }
}

/// The time to live of the privacy service's data in `c`, if any.
pub open spec fn privacy_ttl(c: AppsanityConfig) -> Option<u32> {
    match service_name(c, c.privacy_service.url@) {
        Some(name) => ttl_for_service(c, name),
        None => None,
    }
}

/// The synchronisation settings of `module` for a session: the privacy
/// service's URL and topic with the session put in, its time to live (zero
/// when none is configured), the properties of the module's processor and the
/// user grants mapping of the settings.
pub fn get_sync_settings(
    module: SyncAndMonitorModule,
    appsanity_config: &AppsanityConfig,
    dist_session: DistributorSession,
    callback_id: u64,
) -> (r: SyncSettings)
    requires
        unique_properties(mapping_views(appsanity_config.user_grants_mapping@)),
    ensures
        r.module == module,
        r.dist_session@ == dist_session@,
        r.cloud_service_url@ == uri_with_variables(appsanity_config.privacy_service.url@, dist_session@),
        r.cloud_monitor_topic@ == uri_with_variables(or_empty(privacy_topic(*appsanity_config)), dist_session@),
        r.cloud_sync_ttl == (match privacy_ttl(*appsanity_config) {
            Some(t) => t,
            None => 0,
        }),
        views(r.settings@) == module_properties(module, mapping_views(appsanity_config.user_grants_mapping@)),
        r.callback_id == callback_id,
        mapping_views(r.user_grants_mapping@) == mapping_views(appsanity_config.user_grants_mapping@),
{
    let processor = get_request_processor(module, appsanity_config);
    let url = appsanity_config.privacy_service.url.as_str();
    let cloud_service_url = replace_uri_variables(url, &dist_session);
    let topic = match appsanity_config.get_linchpin_topic_for_url(url) {
        Some(t) => t,
        None => String::new(),
    };
    let cloud_monitor_topic = replace_uri_variables(topic.as_str(), &dist_session);
    let cloud_sync_ttl = match appsanity_config.get_ttl_for_url(url) {
        Some(t) => t,
        None => 0,
    };
    SyncSettings {
        module,
        dist_session,
        cloud_service_url,
        cloud_sync_ttl,
        cloud_monitor_topic,
        settings: processor.get_properties(),
        callback_id,
        user_grants_mapping: copy_mapping(&appsanity_config.user_grants_mapping),
    }
}

/// What a synchronisation request starts: a linchpin subscription when the
/// settings have a monitor topic, a periodic synchronisation (and an answer
/// to the requester) when they have a time to live.
pub struct SyncPlan {
    pub subscribe: bool,
    pub periodic_sync: bool,
}

/// The plan for synchronisation settings.
pub fn sync_plan(settings: &SyncSettings) -> (r: SyncPlan)
    ensures
        r.subscribe == (settings.cloud_monitor_topic@.len() > 0),
        r.periodic_sync == (settings.cloud_sync_ttl > 0),
{
    SyncPlan {
        subscribe: settings.cloud_monitor_topic.as_str().unicode_len() > 0,
        periodic_sync: settings.cloud_sync_ttl > 0,
    }
}

impl SyncSettings {
    /// The call that reads the cloud values of these settings, made with the
    /// distributor token `token` in place of the session's.
    pub fn values_call(&self, token: &String) -> (r: Result<EssCall, DpabError>)
        ensures
            call_view(r) == settings_call(
                self.cloud_service_url@,
                DistributorSessionView { token: token@, ..self.dist_session@ },
            ),
    {
        let session = DistributorSession {
            id: self.dist_session.id.clone(),
            token: token.clone(),
            account_id: self.dist_session.account_id.clone(),
            device_id: self.dist_session.device_id.clone(),
        };
        let service = PrivacyService::new(
            self.cloud_service_url.clone(),
            session.duplicate(),
            copy_mapping(&self.user_grants_mapping),
        );
        service.get_settings_call(&session)
    }
}

/// What a subscription does once the connection status is known: while
/// connected, the listening topics are asked for; else the topic waits as
/// pending and the connection is opened.
pub enum SubscribeStep {
    AskListeningTopics,
    Connect { pending_topic: String, command: LinchpinProxyCommand },
}

/// The cloud monitor: the decisions of the subscriptions to linchpin topics.
pub struct CloudLinchpinMonitor {}

impl CloudLinchpinMonitor {
    /// What a subscription of `settings` does when the connection is `connected`.
    pub fn on_connection_status(
        settings: &SyncSettings,
        connected: bool,
        linchpin_url: &str,
        dev_id: &str,
        sat: &str,
    ) -> (r: SubscribeStep)
        ensures
            connected ==> r is AskListeningTopics,
            !connected ==> (r matches SubscribeStep::Connect { pending_topic, command } && pending_topic@
                == settings.cloud_monitor_topic@ && connects(command, linchpin_url@, dev_id@, sat@)),
    {
        if connected {
            SubscribeStep::AskListeningTopics
        } else {
            SubscribeStep::Connect {
                pending_topic: settings.cloud_monitor_topic.clone(),
                command: LinchpinProxyCommand::Connect(linchpin_url.to_owned(), dev_id.to_owned(), sat.to_owned()),
            }
        }
    }

    /// The subscription to send once the listening topics are known: none when
    /// the topic is already listened to.
    pub fn on_listening_topics(topic: &String, listening: &Vec<String>) -> (r: Option<LinchpinProxyCommand>)
        ensures
            views(listening@).contains(topic@) ==> r is None,
            !views(listening@).contains(topic@) ==> (r matches Some(c) && subscribes_to(c, topic@)),
    {
        if crate::model::contains_string(listening, topic) {
            None
        } else {
            Some(LinchpinProxyCommand::Subscribe(topic.clone()))
        }
    }

    /// The subscriptions sent when the connection is made: one for each
    /// pending topic, in order.
    pub fn on_connected(pending: &Vec<String>) -> (r: Vec<LinchpinProxyCommand>)
        ensures
            r@.len() == pending@.len(),
            forall|i: int| 0 <= i < r@.len() ==> subscribes_to(#[trigger] r@[i], pending@[i]@),
    {
        let mut out: Vec<LinchpinProxyCommand> = Vec::new();
        let mut i: usize = 0;
        while i < pending.len()
            invariant
                i <= pending@.len(),
                out@.len() == i,
                forall|k: int| 0 <= k < i ==> subscribes_to(#[trigger] out@[k], pending@[k]@),
            decreases pending@.len() - i,
        {
            out.push(LinchpinProxyCommand::Subscribe(pending[i].clone()));
            i = i + 1;
        }
        out
    }
}

/// Where a subscription to a monitor topic stands.
#[derive(Clone, Copy, Debug, PartialEq, Eq, Structural)]
pub enum SubscribePhase {
    Start,
    AwaitStatus,
    AwaitTopics,
    Done,
}

/// What a subscription learns as it goes on: that it begins, the connection
/// status, the listening topics, or that the gateway state gave no answer.
pub enum SubscribeEvent {
    Begin,
    Status(bool),
    Topics(Vec<String>),
    NoAnswer,
}

/// What a subscription does next: the phase it moves to, the requests sent to
/// the gateway state in order (while the new phase awaits an answer, the last
/// of them is the question), and the commands sent to the connection in order.
pub struct SubscribeActions {
    pub phase: SubscribePhase,
    pub requests: Vec<StateRequest>,
    pub commands: Vec<LinchpinProxyCommand>,
}

/// Whether `r` is the request to add the listener `s`.
pub open spec fn adds_listener(r: StateRequest, s: SyncSettings) -> bool {
    r matches StateRequest::AddListener(l) && l@ == s@
}

impl CloudLinchpinMonitor {
    /// One step of the subscription of `settings`: it begins by keeping the
    /// token `sat` and asking for the connection status; while connected it
    /// asks for the listening topics, then subscribes unless the topic is
    /// already listened to; while not connected the topic waits as pending and
    /// the connection is opened. In both cases the listener is then added. With
    /// no connection status the subscription ends there; with no listening
    /// topics the listener is still added. Any other event changes nothing.
    pub fn subscribe_step(
        phase: SubscribePhase,
        event: SubscribeEvent,
        settings: &SyncSettings,
        linchpin_url: &str,
        dev_id: &str,
        sat: &str,
    ) -> (r: SubscribeActions)
        ensures
            match (phase, event) {
                (SubscribePhase::Start, SubscribeEvent::Begin) => {
                    &&& r.phase == SubscribePhase::AwaitStatus
                    &&& r.requests@.len() == 2
                    &&& r.requests@[0] matches StateRequest::SetDistributorToken(t) && t@ == sat@
                    &&& r.requests@[1] is GetLinchpinConnectionStatus
                    &&& r.commands@.len() == 0
                },
                (SubscribePhase::AwaitStatus, SubscribeEvent::Status(true)) => {
                    &&& r.phase == SubscribePhase::AwaitTopics
                    &&& r.requests@.len() == 1
                    &&& r.requests@[0] is GetListeningTopics
                    &&& r.commands@.len() == 0
                },
                (SubscribePhase::AwaitStatus, SubscribeEvent::Status(false)) => {
                    &&& r.phase == SubscribePhase::Done
                    &&& r.requests@.len() == 2
                    &&& r.requests@[0] matches StateRequest::AddPendingTopic(t) && t@ == settings.cloud_monitor_topic@
                    &&& adds_listener(r.requests@[1], *settings)
                    &&& r.commands@.len() == 1
                    &&& connects(r.commands@[0], linchpin_url@, dev_id@, sat@)
                },
                (SubscribePhase::AwaitStatus, SubscribeEvent::NoAnswer) => {
                    &&& r.phase == SubscribePhase::Done
                    &&& r.requests@.len() == 0
                    &&& r.commands@.len() == 0
                },
                (SubscribePhase::AwaitTopics, SubscribeEvent::Topics(listening)) => {
                    &&& r.phase == SubscribePhase::Done
                    &&& r.requests@.len() == 1
                    &&& adds_listener(r.requests@[0], *settings)
                    &&& views(listening@).contains(settings.cloud_monitor_topic@) ==> r.commands@.len() == 0
                    &&& !views(listening@).contains(settings.cloud_monitor_topic@) ==> (r.commands@.len() == 1
                        && subscribes_to(r.commands@[0], settings.cloud_monitor_topic@))
                },
                (SubscribePhase::AwaitTopics, SubscribeEvent::NoAnswer) => {
                    &&& r.phase == SubscribePhase::Done
                    &&& r.requests@.len() == 1
                    &&& adds_listener(r.requests@[0], *settings)
                    &&& r.commands@.len() == 0
                },
                _ => {
                    &&& r.phase == phase
                    &&& r.requests@.len() == 0
                    &&& r.commands@.len() == 0
                },
            },
    {
        let mut requests: Vec<StateRequest> = Vec::new();
        let mut commands: Vec<LinchpinProxyCommand> = Vec::new();
        match (phase, event) {
            (SubscribePhase::Start, SubscribeEvent::Begin) => {
                requests.push(StateRequest::SetDistributorToken(sat.to_owned()));
                requests.push(StateRequest::GetLinchpinConnectionStatus);
                SubscribeActions { phase: SubscribePhase::AwaitStatus, requests, commands }
            },
            (SubscribePhase::AwaitStatus, SubscribeEvent::Status(connected)) => {
                match Self::on_connection_status(settings, connected, linchpin_url, dev_id, sat) {
                    SubscribeStep::AskListeningTopics => {
                        requests.push(StateRequest::GetListeningTopics);
                        SubscribeActions { phase: SubscribePhase::AwaitTopics, requests, commands }
                    },
                    SubscribeStep::Connect { pending_topic, command } => {
                        requests.push(StateRequest::AddPendingTopic(pending_topic));
                        requests.push(StateRequest::AddListener(settings.duplicate()));
                        commands.push(command);
                        SubscribeActions { phase: SubscribePhase::Done, requests, commands }
                    },
                }
            },
            (SubscribePhase::AwaitStatus, SubscribeEvent::NoAnswer) => {
                SubscribeActions { phase: SubscribePhase::Done, requests, commands }
            },
            (SubscribePhase::AwaitTopics, SubscribeEvent::Topics(listening)) => {
                match Self::on_listening_topics(&settings.cloud_monitor_topic, &listening) {
                    Some(c) => commands.push(c),
                    None => {},
                }
                requests.push(StateRequest::AddListener(settings.duplicate()));
                SubscribeActions { phase: SubscribePhase::Done, requests, commands }
            },
            (SubscribePhase::AwaitTopics, SubscribeEvent::NoAnswer) => {
                requests.push(StateRequest::AddListener(settings.duplicate()));
                SubscribeActions { phase: SubscribePhase::Done, requests, commands }
            },
            _ => SubscribeActions { phase, requests, commands },
        }
    }
}

/// Every pending topic is subscribed to once the connection is made: for each
/// topic among the pending ones, a subscription to it is sent.
pub proof fn law_pending_topics_subscribed(pending: Seq<String>, sent: Seq<LinchpinProxyCommand>, topic: Seq<char>)
    requires
        sent.len() == pending.len(),
        forall|i: int| 0 <= i < sent.len() ==> subscribes_to(#[trigger] sent[i], pending[i]@),
        views(pending).contains(topic),
    ensures
        exists|i: int| 0 <= i < sent.len() && subscribes_to(#[trigger] sent[i], topic),
{
    let k = choose|k: int| 0 <= k < views(pending).len() && views(pending)[k] == topic;
    assert(subscribes_to(sent[k], topic));
}

impl CloudLinchpinMonitor {
    /// What a new distributor token leads to: the gateway state keeps it, and
    /// the linchpin connection is given it.
    pub fn update_sat(sat: String) -> (r: (StateRequest, LinchpinProxyCommand))
        ensures
            r.0 matches StateRequest::SetDistributorToken(t) && t@ == sat@,
            r.1 matches LinchpinProxyCommand::UpdateDistributorToken(t) && t@ == sat@,
    {
        (StateRequest::SetDistributorToken(sat.clone()), LinchpinProxyCommand::UpdateDistributorToken(sat))
    }

    /// The question that a notification on `topic` about the settings `keys`
    /// asks the gateway state: the listeners of the topic that watch all of them.
    pub fn notification_request(topic: &String, keys: Vec<String>) -> (r: StateRequest)
        ensures
            r matches StateRequest::GetListenersForProperties(t, k) && t@ == topic@ && k@ == keys@,
    {
        StateRequest::GetListenersForProperties(topic.clone(), keys)
    }
}

/// What the linchpin connection does with a command.
pub enum ProxyAction {
    Subscribe(String),
    Unsubscribe(String),
    SetSat(String),
    Start { url: String, sat: String },
    Ignore,
}

impl LinchpinProxy {
    /// What the connection does with `command`, given whether a client was
    /// started: a connection starts a client on the device's listening URL;
    /// every other command goes to the client, and is dropped without one.
    pub fn proxy_action(has_client: bool, command: LinchpinProxyCommand) -> (r: ProxyAction)
        ensures
            match command {
                LinchpinProxyCommand::Connect(url, dev, sat) => r matches ProxyAction::Start { url: u, sat: s }
                    && u@ == linchpin_url(url@, dev@) && s@ == sat@,
                LinchpinProxyCommand::Subscribe(t) => if has_client {
                    r matches ProxyAction::Subscribe(x) && x@ == t@
                } else {
                    r is Ignore
                },
                LinchpinProxyCommand::Unsubscribe(t) => if has_client {
                    r matches ProxyAction::Unsubscribe(x) && x@ == t@
                } else {
                    r is Ignore
                },
                LinchpinProxyCommand::UpdateDistributorToken(t) => if has_client {
                    r matches ProxyAction::SetSat(x) && x@ == t@
                } else {
                    r is Ignore
                },
            },
    {
        match command {
            LinchpinProxyCommand::Connect(url, dev, sat) => ProxyAction::Start {
                url: Self::get_linchpin_url(url.as_str(), dev.as_str()),
                sat,
            },
            LinchpinProxyCommand::Subscribe(t) => if has_client {
                ProxyAction::Subscribe(t)
            } else {
                ProxyAction::Ignore
            },
            LinchpinProxyCommand::Unsubscribe(t) => if has_client {
                ProxyAction::Unsubscribe(t)
            } else {
                ProxyAction::Ignore
            },
            LinchpinProxyCommand::UpdateDistributorToken(t) => if has_client {
                ProxyAction::SetSat(t)
            } else {
                ProxyAction::Ignore
            },
        }
    }
}

} // verus!
