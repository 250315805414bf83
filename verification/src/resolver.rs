use vstd::prelude::*;

use crate::config::AppsanityConfig;
use crate::model::{DistributorSession, DpabError};
use crate::text::concat;

verus! {

/// The kinds of request that reach the gateway; a metric carries the
/// distributor token of its session.
pub enum PayloadKind {
    AppMetric(String),
    BadgerMetric(String),
    Apps,
    SyncAndMonitor,
    Advertising,
    Auth,
    AccountLink,
    Permission,
    Discovery,
    Privacy,
    SecureStorage,
    UserGrants,
    Other,
}

/// The services that handle the requests of the gateway.
#[derive(Clone, Copy, Debug, PartialEq, Eq, Structural)]
pub enum DelegateKind {
    Catalog,
    SyncAndMonitor,
    Advertising,
    Auth,
    AccountLink,
    Sift,
    Permission,
    Discovery,
    Privacy,
    SecureStorage,
}

/// Where a request goes: requests for applications go to the catalog service
/// when it is enabled and are dropped otherwise; each other kind goes to its
/// service (user grants to the privacy service, both kinds of metric to the
/// collector); a request of no known kind is refused.
pub open spec fn route(kind: PayloadKind, catalog_enabled: bool) -> Result<Option<DelegateKind>, DpabError> {
    match kind {
        PayloadKind::Apps => Ok(if catalog_enabled { Some(DelegateKind::Catalog) } else { None }),
        PayloadKind::SyncAndMonitor => Ok(Some(DelegateKind::SyncAndMonitor)),
        PayloadKind::Advertising => Ok(Some(DelegateKind::Advertising)),
        PayloadKind::Auth => Ok(Some(DelegateKind::Auth)),
        PayloadKind::AccountLink => Ok(Some(DelegateKind::AccountLink)),
        PayloadKind::AppMetric(_) => Ok(Some(DelegateKind::Sift)),
        PayloadKind::BadgerMetric(_) => Ok(Some(DelegateKind::Sift)),
        PayloadKind::Permission => Ok(Some(DelegateKind::Permission)),
        PayloadKind::Discovery => Ok(Some(DelegateKind::Discovery)),
        PayloadKind::Privacy => Ok(Some(DelegateKind::Privacy)),
        PayloadKind::SecureStorage => Ok(Some(DelegateKind::SecureStorage)),
        PayloadKind::UserGrants => Ok(Some(DelegateKind::Privacy)),
        PayloadKind::Other => Err(DpabError::ServiceError),
    }
}

/// The token that a request leaves as the session token: a metric's own
/// token; any other request keeps the current one.
pub open spec fn token_after(kind: PayloadKind, current: Seq<char>) -> Seq<char> {
    match kind {
        PayloadKind::AppMetric(t) => t@,
        PayloadKind::BadgerMetric(t) => t@,
        _ => current,
    }
}

/// The resolver of the gateway's requests: the session token that the last
/// metric carried, and whether the catalog service is enabled.
pub struct AppsanityServiceResolver {
    pub session_token: String,
    pub catalog_enabled: bool,
}

impl AppsanityServiceResolver {
    /// A resolver under the gateway's settings, with an empty session token.
    pub fn new(cloud_services: &AppsanityConfig) -> (r: AppsanityServiceResolver)
        ensures
            r.session_token@ == Seq::<char>::empty(),
            r.catalog_enabled == cloud_services.catalog_service.enabled,
    {
        AppsanityServiceResolver { session_token: String::new(), catalog_enabled: cloud_services.catalog_service.enabled }
    }

    /// The service that handles `payload`; a metric's token becomes the session token.
    pub fn resolve(&mut self, payload: &PayloadKind) -> (r: Result<Option<DelegateKind>, DpabError>)
        ensures
            r == route(*payload, old(self).catalog_enabled),
            final(self).catalog_enabled == old(self).catalog_enabled,
            final(self).session_token@ == token_after(*payload, old(self).session_token@),
    {
        match payload {
            PayloadKind::AppMetric(t) => {
                self.session_token = t.clone();
            },
            PayloadKind::BadgerMetric(t) => {
                self.session_token = t.clone();
            },
            _ => {},
        }
        match payload {
            PayloadKind::Apps => Ok(
                if self.catalog_enabled {
                    Some(DelegateKind::Catalog)
                } else {
                    None
                },
            ),
            PayloadKind::SyncAndMonitor => Ok(Some(DelegateKind::SyncAndMonitor)),
            PayloadKind::Advertising => Ok(Some(DelegateKind::Advertising)),
            PayloadKind::Auth => Ok(Some(DelegateKind::Auth)),
            PayloadKind::AccountLink => Ok(Some(DelegateKind::AccountLink)),
            PayloadKind::AppMetric(_) => Ok(Some(DelegateKind::Sift)),
            PayloadKind::BadgerMetric(_) => Ok(Some(DelegateKind::Sift)),
            PayloadKind::Permission => Ok(Some(DelegateKind::Permission)),
            PayloadKind::Discovery => Ok(Some(DelegateKind::Discovery)),
            PayloadKind::Privacy => Ok(Some(DelegateKind::Privacy)),
            PayloadKind::SecureStorage => Ok(Some(DelegateKind::SecureStorage)),
            PayloadKind::UserGrants => Ok(Some(DelegateKind::Privacy)),
            PayloadKind::Other => Err(DpabError::ServiceError),
        }
    }
}

/// Every request of a known kind is handled or, for applications while the
/// catalog is disabled, dropped without error; only a request of no known kind
/// is refused.
pub proof fn law_only_unknown_requests_refused(kind: PayloadKind, catalog_enabled: bool)
    ensures
        route(kind, catalog_enabled) is Err <==> kind is Other,
{
}

/// The service that sets and clears the content access of applications.
pub struct DiscoveryService {
    pub endpoint: String,
}

impl DiscoveryService {
    /// The service at `endpoint`.
    pub fn new(endpoint: String) -> (r: DiscoveryService)
        ensures
            r.endpoint == endpoint,
    {
        DiscoveryService { endpoint }
    }
}

/// The metadata that every call of the platform's gRPC services carries:
/// the bearer token, the device, the account and the partner.
pub open spec fn session_metadata_of(s: DistributorSession) -> Seq<(Seq<char>, Seq<char>)> {
    seq![
        ("authorization"@, "Bearer "@ + s.token@),
        ("deviceid"@, s.device_id@),
        ("accountid"@, s.account_id@),
        ("partnerid"@, s.id@),
    ]
}

/// The metadata of a call made for `session`, in the order it is added.
pub fn decorate_request_with_session(session: &DistributorSession) -> (r: Vec<(String, String)>)
    ensures
        crate::urls::pair_views(r@) == session_metadata_of(*session),
{
    let mut r: Vec<(String, String)> = Vec::new();
    r.push(("authorization".to_owned(), concat("Bearer ", session.token.as_str())));
    r.push(("deviceid".to_owned(), session.device_id.clone()));
    r.push(("accountid".to_owned(), session.account_id.clone()));
    r.push(("partnerid".to_owned(), session.id.clone()));
    assert(crate::urls::pair_views(r@) =~= session_metadata_of(*session));
    r
}

/// The request for a platform token of an application.
pub struct GetThorTokenRequest {
    pub app: String,
    pub content_provider: String,
    pub device_session_id: String,
    pub app_session_id: String,
    pub token_mode: String,
    pub ttl: i32,
}

/// The request for an untrusted platform token, valid for an hour, of an
/// application in a content provider's device and application sessions.
pub fn thor_token_request(
    app_id: String,
    content_provider: String,
    device_session_id: String,
    app_session_id: String,
) -> (r: GetThorTokenRequest)
    ensures
        r.app == app_id,
        r.content_provider == content_provider,
        r.device_session_id == device_session_id,
        r.app_session_id == app_session_id,
        r.token_mode@ == "untrusted"@,
        r.ttl == 3600,
{
    GetThorTokenRequest {
        app: app_id,
        content_provider,
        device_session_id,
        app_session_id,
        token_mode: "untrusted".to_owned(),
        ttl: 3600,
    }
}

/// How long a gRPC channel may stay idle and still be used, in nanoseconds.
pub open spec fn channel_idle_limit() -> u128 {
    240_000_000_000
}

/// Whether a call uses the existing channel or opens a new one.
#[derive(Clone, Copy, Debug, PartialEq, Eq, Structural)]
pub enum ChannelUse {
    Reuse,
    Connect,
}

/// The gRPC session of a service: whether a channel is open and when it was
/// last used, in nanoseconds since the Unix epoch.
pub struct GrpcClientSession {
    pub has_channel: bool,
    pub last_accessed_time: u128,
}

/// The idle time since `last`, or zero when the clock went back.
pub open spec fn idle_since(last: u128, now: u128) -> u128 {
    if now >= last {
        (now - last) as u128
    } else {
        0
    }
}

impl GrpcClientSession {
    /// A session with no channel, created at time `now`.
    pub fn new(now: u128) -> (r: GrpcClientSession)
        ensures
            !r.has_channel,
            r.last_accessed_time == now,
    {
        GrpcClientSession { has_channel: false, last_accessed_time: now }
    }

    /// The channel of a call at time `now`: the open one, if it was used less
    /// than four minutes ago; else a new one, which replaces it. Either way the
    /// channel is now open and used at `now`.
    pub fn get_grpc_channel(&mut self, now: u128) -> (r: ChannelUse)
        ensures
            channel_step(*old(self), now, *final(self), r),
    {
        let idle: u128 = if now >= self.last_accessed_time {
            now - self.last_accessed_time
        } else {
            0
        };
        let result = if self.has_channel && idle < 240_000_000_000 {
            ChannelUse::Reuse
        } else {
            ChannelUse::Connect
        };
        self.has_channel = true;
        self.last_accessed_time = now;
        result
    }
}

/// What [`GrpcClientSession::get_grpc_channel`] does at time `now`: the open
/// channel is reused when it was used less than four minutes ago, else a new
/// one is opened; either way a channel is open afterwards, used at `now`.
pub open spec fn channel_step(before: GrpcClientSession, now: u128, after: GrpcClientSession, r: ChannelUse) -> bool {
    &&& r == (if before.has_channel && idle_since(before.last_accessed_time, now) < channel_idle_limit() {
        ChannelUse::Reuse
    } else {
        ChannelUse::Connect
    })
    &&& after.has_channel
    &&& after.last_accessed_time == now
}

/// Of two calls at times `t1` and then `t2`, the second reuses the channel of
/// the first exactly when it comes less than four minutes later (or the clock
/// went back): a channel left idle for four minutes or more is replaced.
pub proof fn law_idle_channel_replaced(
    s0: GrpcClientSession,
    t1: u128,
    s1: GrpcClientSession,
    r1: ChannelUse,
    t2: u128,
    s2: GrpcClientSession,
    r2: ChannelUse,
)
    requires
        channel_step(s0, t1, s1, r1),
        channel_step(s1, t2, s2, r2),
    ensures
        (r2 == ChannelUse::Reuse) == (idle_since(t1, t2) < channel_idle_limit()),
        s2.has_channel,
        s2.last_accessed_time == t2,
{
}

} // verus!
