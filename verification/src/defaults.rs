use vstd::prelude::*;

use crate::config::{
    opt_view, AppAuthorizationRules, AppsanityConfig, BehavioralMetricsConfig, CatalogServiceConfig,
    CloudService, CloudServiceScopes, LinchpinServices, MetricsSchema, MetricsSchemas, SiftConfig,
    SyncMonitorConfig,
};
use crate::model::{copy_mapping, copy_strings, mapping_views, views, UserGrantMapping, UserGrantMappingView};

verus! {

// The default value of each field of the gateway settings is the value of that
// field in the project's default settings, `defaults`, which the caller reads.

/// The texts of the ignore rules, application by application.
pub open spec fn rule_views(v: Seq<(String, Vec<String>)>) -> Seq<(Seq<char>, Seq<Seq<char>>)> {
    v.map_values(|r: (String, Vec<String>)| (r.0@, views(r.1@)))
}

/// The texts of a list of metrics schemas.
pub open spec fn schema_views(v: Seq<MetricsSchema>) -> Seq<(Seq<char>, Option<Seq<char>>, Option<Seq<char>>, Option<Seq<char>>)> {
    v.map_values(|s: MetricsSchema| (s.event_name@, opt_view(s.alias), opt_view(s.namespace), opt_view(s.version)))
}

/// The texts of a list of watched services.
pub open spec fn service_views(v: Seq<LinchpinServices>) -> Seq<(Seq<char>, Seq<char>, u32)> {
    v.map_values(|s: LinchpinServices| (s.service_name@, s.listen_topic@, s.ttl))
}

/// Whether two metrics schema settings hold the same values.
pub open spec fn same_schemas(a: MetricsSchemas, b: MetricsSchemas) -> bool {
    &&& a.default_metrics_namespace@ == b.default_metrics_namespace@
    &&& a.default_metrics_schema_version@ == b.default_metrics_schema_version@
    &&& schema_views(a.metrics_schemas@) == schema_views(b.metrics_schemas@)
}

/// Whether two behavioral metrics settings hold the same values.
pub open spec fn same_metrics(a: BehavioralMetricsConfig, b: BehavioralMetricsConfig) -> bool {
    &&& a.sift.endpoint@ == b.sift.endpoint@
    &&& a.sift.api_key@ == b.sift.api_key@
    &&& a.sift.batch_size == b.sift.batch_size
    &&& a.sift.max_queue_size == b.sift.max_queue_size
    &&& a.sift.send_interval_seconds == b.sift.send_interval_seconds
    &&& same_schemas(a.sift.metrics_schemas, b.sift.metrics_schemas)
}

/// Whether two catalog settings hold the same values.
pub open spec fn same_catalog(a: CatalogServiceConfig, b: CatalogServiceConfig) -> bool {
    &&& a.enabled == b.enabled
    &&& a.url@ == b.url@
    &&& a.polling_interval_secs == b.polling_interval_secs
    &&& a.retry_interval_secs == b.retry_interval_secs
    &&& a.max_retry_interval_secs == b.max_retry_interval_secs
    &&& a.saved_dir@ == b.saved_dir@
}

fn copy_service(s: &CloudService) -> (r: CloudService)
    ensures
        r.url@ == s.url@,
{
    CloudService { url: s.url.clone() }
}

fn copy_opt(o: &Option<String>) -> (r: Option<String>)
    ensures
        opt_view(r) == opt_view(*o),
{
    match o {
        Some(s) => Some(s.clone()),
        None => None,
    }
}

fn copy_schemas(s: &MetricsSchemas) -> (r: MetricsSchemas)
    ensures
        same_schemas(r, *s),
{
    let mut v: Vec<MetricsSchema> = Vec::new();
    let mut i: usize = 0;
    while i < s.metrics_schemas.len()
        invariant
            i <= s.metrics_schemas@.len(),
            schema_views(v@) =~= schema_views(s.metrics_schemas@.take(i as int)),
        decreases s.metrics_schemas@.len() - i,
    {
        let e = &s.metrics_schemas[i];
        let ghost before = v@;
        let c = MetricsSchema {
            event_name: e.event_name.clone(),
            alias: copy_opt(&e.alias),
            namespace: copy_opt(&e.namespace),
            version: copy_opt(&e.version),
        };
        v.push(c);
        assert(schema_views(v@) =~= schema_views(before).push(schema_views(s.metrics_schemas@)[i as int]));
        assert(schema_views(s.metrics_schemas@.take(i + 1)) =~= schema_views(s.metrics_schemas@.take(i as int)).push(
            schema_views(s.metrics_schemas@)[i as int],
        ));
        i = i + 1;
    }
    assert(s.metrics_schemas@.take(s.metrics_schemas@.len() as int) =~= s.metrics_schemas@);
    MetricsSchemas {
        default_metrics_namespace: s.default_metrics_namespace.clone(),
        default_metrics_schema_version: s.default_metrics_schema_version.clone(),
        metrics_schemas: v,
    }
}

fn copy_rules(r: &AppAuthorizationRules) -> (out: AppAuthorizationRules)
    ensures
        rule_views(out.app_ignore_rules@) == rule_views(r.app_ignore_rules@),
{
    let src = &r.app_ignore_rules;
    let mut v: Vec<(String, Vec<String>)> = Vec::new();
    let mut i: usize = 0;
    while i < src.len()
        invariant
            i <= src@.len(),
            rule_views(v@) =~= rule_views(src@.take(i as int)),
        decreases src@.len() - i,
    {
        let ghost before = v@;
        v.push((src[i].0.clone(), copy_strings(&src[i].1)));
        assert(rule_views(v@) =~= rule_views(before).push(rule_views(src@)[i as int]));
        assert(rule_views(src@.take(i + 1)) =~= rule_views(src@.take(i as int)).push(rule_views(src@)[i as int]));
        i = i + 1;
    }
    assert(src@.take(src@.len() as int) =~= src@);
    AppAuthorizationRules { app_ignore_rules: v }
}

fn copy_services(src: &Vec<LinchpinServices>) -> (r: Vec<LinchpinServices>)
    ensures
        service_views(r@) == service_views(src@),
{
    let mut v: Vec<LinchpinServices> = Vec::new();
    let mut i: usize = 0;
    while i < src.len()
        invariant
            i <= src@.len(),
            service_views(v@) =~= service_views(src@.take(i as int)),
        decreases src@.len() - i,
    {
        let ghost before = v@;
        v.push(
            LinchpinServices {
                service_name: src[i].service_name.clone(),
                listen_topic: src[i].listen_topic.clone(),
                ttl: src[i].ttl,
            },
        );
        assert(service_views(v@) =~= service_views(before).push(service_views(src@)[i as int]));
        assert(service_views(src@.take(i + 1)) =~= service_views(src@.take(i as int)).push(service_views(src@)[i as int]));
        i = i + 1;
    }
    assert(src@.take(src@.len() as int) =~= src@);
    v
}

/// The default location of the permission service.
pub fn permission_service_default(defaults: &AppsanityConfig) -> (r: CloudService)
    ensures
        r.url@ == defaults.permission_service.url@,
{
    copy_service(&defaults.permission_service)
}

/// The default location of the ad platform service.
pub fn ad_platform_service_default(defaults: &AppsanityConfig) -> (r: CloudService)
    ensures
        r.url@ == defaults.ad_platform_service.url@,
{
    copy_service(&defaults.ad_platform_service)
}

/// The default location of the secure storage service.
pub fn secure_storage_service_default(defaults: &AppsanityConfig) -> (r: CloudService)
    ensures
        r.url@ == defaults.secure_storage_service.url@,
{
    copy_service(&defaults.secure_storage_service)
}

/// The default location of the playback service.
pub fn xvp_playback_service_default(defaults: &AppsanityConfig) -> (r: CloudService)
    ensures
        r.url@ == defaults.xvp_playback_service.url@,
{
    copy_service(&defaults.xvp_playback_service)
}

/// The default location of the session service.
pub fn session_service_default(defaults: &AppsanityConfig) -> (r: CloudService)
    ensures
        r.url@ == defaults.session_service.url@,
{
    copy_service(&defaults.session_service)
}

/// The default ignore rules of applications.
pub fn app_authorization_rules_default(defaults: &AppsanityConfig) -> (r: AppAuthorizationRules)
    ensures
        rule_views(r.app_ignore_rules@) == rule_views(defaults.app_authorization_rules.app_ignore_rules@),
{
    copy_rules(&defaults.app_authorization_rules)
}

/// The default methods allowed without a check.
pub fn method_ignore_rules_default(defaults: &AppsanityConfig) -> (r: Vec<String>)
    ensures
        views(r@) == views(defaults.method_ignore_rules@),
{
    let r = copy_strings(&defaults.method_ignore_rules);
    r
}

/// The default behavioral metrics settings.
pub fn behavioral_metrics_default(defaults: &AppsanityConfig) -> (r: BehavioralMetricsConfig)
    ensures
        same_metrics(r, defaults.behavioral_metrics),
{
    let s = &defaults.behavioral_metrics.sift;
    BehavioralMetricsConfig {
        sift: SiftConfig {
            endpoint: s.endpoint.clone(),
            api_key: s.api_key.clone(),
            batch_size: s.batch_size,
            max_queue_size: s.max_queue_size,
            send_interval_seconds: s.send_interval_seconds,
            metrics_schemas: copy_schemas(&s.metrics_schemas),
        },
    }
}

/// The default metrics schemas.
pub fn metrics_schemas_default(defaults: &AppsanityConfig) -> (r: MetricsSchemas)
    ensures
        same_schemas(r, defaults.behavioral_metrics.sift.metrics_schemas),
{
    copy_schemas(&defaults.behavioral_metrics.sift.metrics_schemas)
}

/// The default location of the session service that content access goes to.
pub fn discovery_service_default(defaults: &AppsanityConfig) -> (r: CloudService)
    ensures
        r.url@ == defaults.xvp_session_service.url@,
{
    copy_service(&defaults.xvp_session_service)
}

/// The default location of the privacy settings service.
pub fn privacy_service_default(defaults: &AppsanityConfig) -> (r: CloudService)
    ensures
        r.url@ == defaults.privacy_service.url@,
{
    copy_service(&defaults.privacy_service)
}

/// The default location of the video service.
pub fn xvp_video_service_default(defaults: &AppsanityConfig) -> (r: CloudService)
    ensures
        r.url@ == defaults.xvp_video_service.url@,
{
    copy_service(&defaults.xvp_video_service)
}

/// The default linchpin settings.
pub fn linchpin_service_default(defaults: &AppsanityConfig) -> (r: SyncMonitorConfig)
    ensures
        r.linchpin_url@ == defaults.sync_monitor_service.linchpin_url@,
        service_views(r.services@) == service_views(defaults.sync_monitor_service.services@),
{
    SyncMonitorConfig {
        linchpin_url: defaults.sync_monitor_service.linchpin_url.clone(),
        services: copy_services(&defaults.sync_monitor_service.services),
    }
}

/// The default mapping from cloud privacy properties to capabilities.
pub fn cloud_firebolt_mapping_default(defaults: &AppsanityConfig) -> (r: Vec<UserGrantMapping>)
    ensures
        mapping_views(r@) == mapping_views(defaults.user_grants_mapping@),
{
    copy_mapping(&defaults.user_grants_mapping)
}

/// The default scopes of XVP data.
pub fn xvp_data_scopes_default(defaults: &AppsanityConfig) -> (r: CloudServiceScopes)
    ensures
        r.content_access_scope() == defaults.xvp_data_scopes.content_access_scope(),
        r.sign_in_state_scope() == defaults.xvp_data_scopes.sign_in_state_scope(),
{
    let s = &defaults.xvp_data_scopes;
    CloudServiceScopes::new(
        s.get_xvp_content_access_scope().to_owned(),
        s.get_xvp_sign_in_state_scope().to_owned(),
    )
}

/// The default catalog settings.
pub fn catalog_service_default(defaults: &AppsanityConfig) -> (r: CatalogServiceConfig)
    ensures
        same_catalog(r, defaults.catalog_service),
{
    let c = &defaults.catalog_service;
    CatalogServiceConfig {
        enabled: c.enabled,
        url: c.url.clone(),
        polling_interval_secs: c.polling_interval_secs,
        retry_interval_secs: c.retry_interval_secs,
        max_retry_interval_secs: c.max_retry_interval_secs,
        saved_dir: c.saved_dir.clone(),
    }
}

} // verus!
