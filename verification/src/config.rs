use vstd::prelude::*;

use crate::model::UserGrantMapping;
use crate::text::concat;

verus! {

/// The location of a cloud service.
pub struct CloudService {
    pub url: String,
}

/// The scopes in which XVP data are kept: per account or per device.
pub struct CloudServiceScopes {
    content_access: String,
    sign_in_state: String,
}

impl CloudServiceScopes {
    /// Scopes with the given content access and sign-in state scopes.
    pub fn new(content_access: String, sign_in_state: String) -> (r: CloudServiceScopes)
        ensures
            r.content_access_scope() == content_access@,
            r.sign_in_state_scope() == sign_in_state@,
    {
        CloudServiceScopes { content_access, sign_in_state }
    }

    /// The scope of content access data.
    pub closed spec fn content_access_scope(&self) -> Seq<char> {
        self.content_access@
    }

    /// The scope of sign-in state data.
    pub closed spec fn sign_in_state_scope(&self) -> Seq<char> {
        self.sign_in_state@
    }

    /// The scope of content access data.
    pub fn get_xvp_content_access_scope(&self) -> (r: &str)
        ensures
            r@ == self.content_access_scope(),
    {
        self.content_access.as_str()
    }

    /// The scope of sign-in state data.
    pub fn get_xvp_sign_in_state_scope(&self) -> (r: &str)
        ensures
            r@ == self.sign_in_state_scope(),
    {
        self.sign_in_state.as_str()
    }

    /// Both scopes are "account".
    pub fn default() -> (r: CloudServiceScopes)
        ensures
            r.content_access_scope() == "account"@,
            r.sign_in_state_scope() == "account"@,
    {
        CloudServiceScopes {
            content_access: "account".to_owned(),
            sign_in_state: "account".to_owned(),
        }
    }
}

/// The methods that each application is allowed without a check.
pub struct AppAuthorizationRules {
    pub app_ignore_rules: Vec<(String, Vec<String>)>,
}

/// How one behavioral metric is named and filed.
pub struct MetricsSchema {
    pub event_name: String,
    pub alias: Option<String>,
    pub namespace: Option<String>,
    pub version: Option<String>,
}

/// How behavioral metrics are named and filed, with the defaults for those not listed.
pub struct MetricsSchemas {
    pub default_metrics_namespace: String,
    pub default_metrics_schema_version: String,
    pub metrics_schemas: Vec<MetricsSchema>,
}

/// The position of the first schema for event `name`, or -1 when none is listed.
pub open spec fn schema_pos(schemas: Seq<MetricsSchema>, name: Seq<char>) -> int {
    if exists|i: int|
        0 <= i < schemas.len() && schemas[i].event_name@ == name && forall|j: int|
            0 <= j < i ==> schemas[j].event_name@ != name {
        choose|i: int|
            0 <= i < schemas.len() && schemas[i].event_name@ == name && forall|j: int|
                0 <= j < i ==> schemas[j].event_name@ != name
    } else {
        -1
    }
}

/// The text of an optional string, or `default` when there is none.
pub open spec fn text_or(o: Option<String>, default: Seq<char>) -> Seq<char> {
    match o {
        Some(s) => s@,
        None => default,
    }
}

/// The name under which event `name` is sent: the alias of its schema if it has one.
pub open spec fn event_name_alias(s: MetricsSchemas, name: Seq<char>) -> Seq<char> {
    let p = schema_pos(s.metrics_schemas@, name);
    if p >= 0 {
        text_or(s.metrics_schemas@[p].alias, name)
    } else {
        name
    }
}

/// The path of event `name`: namespace, name and version, separated by "/".
pub open spec fn event_path(s: MetricsSchemas, name: Seq<char>) -> Seq<char> {
    let p = schema_pos(s.metrics_schemas@, name);
    let namespace = if p >= 0 {
        text_or(s.metrics_schemas@[p].namespace, s.default_metrics_namespace@)
    } else {
        s.default_metrics_namespace@
    };
    let version = if p >= 0 {
        text_or(s.metrics_schemas@[p].version, s.default_metrics_schema_version@)
    } else {
        s.default_metrics_schema_version@
    };
    namespace + "/"@ + name + "/"@ + version
}

impl MetricsSchemas {
    fn find_schema(&self, event_name: &str) -> (r: Option<usize>)
        ensures
            match r {
                Some(i) => i == schema_pos(self.metrics_schemas@, event_name@) && i
                    < self.metrics_schemas@.len(),
                None => schema_pos(self.metrics_schemas@, event_name@) == -1,
            },
    {
        let name = event_name.to_owned();
        let ghost v = self.metrics_schemas@;
        let mut i: usize = 0;
        while i < self.metrics_schemas.len()
            invariant
                i <= v.len(),
                v == self.metrics_schemas@,
                name@ == event_name@,
                forall|j: int| 0 <= j < i ==> v[j].event_name@ != event_name@,
            decreases v.len() - i,
        {
            if self.metrics_schemas[i].event_name == name {
                let ghost p = schema_pos(v, event_name@);
                assert(p == i) by {
                    assert(v[i as int].event_name@ == event_name@);
                    assert(0 <= p < v.len() && v[p].event_name@ == event_name@ && forall|j: int|
                        0 <= j < p ==> v[j].event_name@ != event_name@);
                    if p < i {
                        assert(v[p].event_name@ != event_name@);
                    }
                    if p > i {
                        assert(v[i as int].event_name@ != event_name@);
                    }
                }
                return Some(i);
            }
            i = i + 1;
        }
        None
    }

    /// The name under which event `event_name` is sent.
    pub fn get_event_name_alias(&self, event_name: &str) -> (r: String)
        ensures
            r@ == event_name_alias(*self, event_name@),
    {
        match self.find_schema(event_name) {
            Some(i) => match &self.metrics_schemas[i].alias {
                Some(a) => a.clone(),
                None => event_name.to_owned(),
            },
            None => event_name.to_owned(),
        }
    }

    /// The path of event `event_name`: namespace/name/version.
    pub fn get_event_path(&self, event_name: &str) -> (r: String)
        ensures
            r@ == event_path(*self, event_name@),
    {
        let (namespace, version) = match self.find_schema(event_name) {
            Some(i) => {
                let schema = &self.metrics_schemas[i];
                let namespace = match &schema.namespace {
                    Some(n) => n.as_str(),
                    None => self.default_metrics_namespace.as_str(),
                };
                let version = match &schema.version {
                    Some(v) => v.as_str(),
                    None => self.default_metrics_schema_version.as_str(),
                };
                (namespace, version)
            },
            None => (self.default_metrics_namespace.as_str(), self.default_metrics_schema_version.as_str()),
        };
        let a = concat(namespace, "/");
        let b = concat(a.as_str(), event_name);
        let c = concat(b.as_str(), "/");
        concat(c.as_str(), version)
    }
}

/// The settings of the behavioral metrics collector.
pub struct SiftConfig {
    pub endpoint: String,
    pub api_key: String,
    pub batch_size: u8,
    pub max_queue_size: u8,
    pub send_interval_seconds: u16,
    pub metrics_schemas: MetricsSchemas,
}

/// The settings of behavioral metrics.
pub struct BehavioralMetricsConfig {
    pub sift: SiftConfig,
}

/// A cloud service whose changes are announced on a linchpin topic.
pub struct LinchpinServices {
    pub service_name: String,
    pub listen_topic: String,
    pub ttl: u32,
}

/// Where the linchpin service is, and the services it watches.
pub struct SyncMonitorConfig {
    pub linchpin_url: String,
    pub services: Vec<LinchpinServices>,
}

/// The settings of the application catalog service.
pub struct CatalogServiceConfig {
    pub enabled: bool,
    pub url: String,
    pub polling_interval_secs: u64,
    pub retry_interval_secs: u64,
    pub max_retry_interval_secs: u64,
    pub saved_dir: String,
}

/// The settings of the distributor platform gateway.
///
/// `user_grants_mapping` is what the gateway reads from the cloud-to-Firebolt
/// mapping: the capability that each cloud privacy property grants.
pub struct AppsanityConfig {
    pub permission_service: CloudService,
    pub session_service: CloudService,
    pub ad_platform_service: CloudService,
    pub secure_storage_service: CloudService,
    pub xvp_playback_service: CloudService,
    pub app_authorization_rules: AppAuthorizationRules,
    pub method_ignore_rules: Vec<String>,
    pub behavioral_metrics: BehavioralMetricsConfig,
    pub xvp_session_service: CloudService,
    pub privacy_service: CloudService,
    pub xvp_video_service: CloudService,
    pub sync_monitor_service: SyncMonitorConfig,
    pub user_grants_mapping: Vec<UserGrantMapping>,
    pub xvp_data_scopes: CloudServiceScopes,
    pub catalog_service: CatalogServiceConfig,
}

/// The name of the service configured at `url`: the first one, in the order
/// permission, session, ad platform, secure storage, playback, XVP session,
/// privacy, video service, whose URL it is.
pub open spec fn service_name(c: AppsanityConfig, url: Seq<char>) -> Option<Seq<char>> {
    if c.permission_service.url@ == url {
        Some("permission_service"@)
    } else if c.session_service.url@ == url {
        Some("session_service"@)
    } else if c.ad_platform_service.url@ == url {
        Some("ad_platform_service"@)
    } else if c.secure_storage_service.url@ == url {
        Some("secure_storage_service"@)
    } else if c.xvp_playback_service.url@ == url {
        Some("xvp_playback_service"@)
    } else if c.xvp_session_service.url@ == url {
        Some("xvp_session_service"@)
    } else if c.privacy_service.url@ == url {
        Some("privacy_service"@)
    } else if c.xvp_video_service.url@ == url {
        Some("xvp_video_service"@)
    } else {
        None
    }
}

/// The position of the first watched service named `name`, or -1.
pub open spec fn service_pos(services: Seq<LinchpinServices>, name: Seq<char>) -> int {
    if exists|i: int|
        0 <= i < services.len() && services[i].service_name@ == name && forall|j: int|
            0 <= j < i ==> services[j].service_name@ != name {
        choose|i: int|
            0 <= i < services.len() && services[i].service_name@ == name && forall|j: int|
                0 <= j < i ==> services[j].service_name@ != name
    } else {
        -1
    }
}

/// The linchpin topic of the service named `name`, if it is watched.
pub open spec fn topic_for_service(c: AppsanityConfig, name: Seq<char>) -> Option<Seq<char>> {
    let p = service_pos(c.sync_monitor_service.services@, name);
    if p >= 0 {
        Some(c.sync_monitor_service.services@[p].listen_topic@)
    } else {
        None
    }
}

/// The time to live of the data of the service named `name`, if it is watched.
pub open spec fn ttl_for_service(c: AppsanityConfig, name: Seq<char>) -> Option<u32> {
    let p = service_pos(c.sync_monitor_service.services@, name);
    if p >= 0 {
        Some(c.sync_monitor_service.services@[p].ttl)
    } else {
        None
    }
}

/// The text of an optional string.
pub open spec fn opt_view(o: Option<String>) -> Option<Seq<char>> {
    match o {
        Some(s) => Some(s@),
        None => None,
    }
}

impl AppsanityConfig {
    /// The name of the service configured at `url`.
    pub fn get_service_name(&self, url: &str) -> (r: Option<String>)
        ensures
            opt_view(r) == service_name(*self, url@),
    {
        let u = url.to_owned();
        if self.permission_service.url == u {
            return Some("permission_service".to_owned());
        }
        if self.session_service.url == u {
            return Some("session_service".to_owned());
        }
        if self.ad_platform_service.url == u {
            return Some("ad_platform_service".to_owned());
        }
        if self.secure_storage_service.url == u {
            return Some("secure_storage_service".to_owned());
        }
        if self.xvp_playback_service.url == u {
            return Some("xvp_playback_service".to_owned());
        }
        if self.xvp_session_service.url == u {
            return Some("xvp_session_service".to_owned());
        }
        if self.privacy_service.url == u {
            return Some("privacy_service".to_owned());
        }
        if self.xvp_video_service.url == u {
            return Some("xvp_video_service".to_owned());
        }
        None
    }

    fn find_service(&self, service: &str) -> (r: Option<usize>)
        ensures
            match r {
                Some(i) => i == service_pos(self.sync_monitor_service.services@, service@) && i
                    < self.sync_monitor_service.services@.len(),
                None => service_pos(self.sync_monitor_service.services@, service@) == -1,
            },
    {
        let name = service.to_owned();
        let ghost v = self.sync_monitor_service.services@;
        let mut i: usize = 0;
        while i < self.sync_monitor_service.services.len()
            invariant
                i <= v.len(),
                v == self.sync_monitor_service.services@,
                name@ == service@,
                forall|j: int| 0 <= j < i ==> v[j].service_name@ != service@,
            decreases v.len() - i,
        {
            if self.sync_monitor_service.services[i].service_name == name {
                let ghost p = service_pos(v, service@);
                assert(p == i) by {
                    assert(v[i as int].service_name@ == service@);
                    assert(0 <= p < v.len() && v[p].service_name@ == service@ && forall|j: int|
                        0 <= j < p ==> v[j].service_name@ != service@);
                    if p < i {
                        assert(v[p].service_name@ != service@);
                    }
                    if p > i {
                        assert(v[i as int].service_name@ != service@);
                    }
                }
                return Some(i);
            }
            i = i + 1;
        }
        None
    }

    /// The linchpin topic on which changes of the service named `service` are announced.
    pub fn get_linchpin_topic_for_service(&self, service: &str) -> (r: Option<String>)
        ensures
            opt_view(r) == topic_for_service(*self, service@),
    {
        match self.find_service(service) {
            Some(i) => Some(self.sync_monitor_service.services[i].listen_topic.clone()),
            None => None,
        }
    }

    /// The time to live of the data of the service named `service`.
    pub fn get_ttl_for_service(&self, service: &str) -> (r: Option<u32>)
        ensures
            r == ttl_for_service(*self, service@),
    {
        match self.find_service(service) {
            Some(i) => Some(self.sync_monitor_service.services[i].ttl),
            None => None,
        }
    }

    /// The linchpin topic of the service configured at `url`.
    pub fn get_linchpin_topic_for_url(&self, url: &str) -> (r: Option<String>)
        ensures
            opt_view(r) == (match service_name(*self, url@) {
                Some(name) => topic_for_service(*self, name),
                None => None,
            }),
    {
        match self.get_service_name(url) {
            Some(name) => self.get_linchpin_topic_for_service(name.as_str()),
            None => None,
        }
    }

    /// The time to live of the data of the service configured at `url`.
    pub fn get_ttl_for_url(&self, url: &str) -> (r: Option<u32>)
        ensures
            r == (match service_name(*self, url@) {
                Some(name) => ttl_for_service(*self, name),
                None => None,
            }),
    {
        match self.get_service_name(url) {
            Some(name) => self.get_ttl_for_service(name.as_str()),
            None => None,
        }
    }
}

} // verus!
