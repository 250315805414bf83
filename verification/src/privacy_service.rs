use vstd::prelude::*;

use crate::config::opt_view;
use crate::model::{
    views, mapping_views, CapRole, CapRoleView, DistributorSession, DistributorSessionView, DpabError,
    GrantStatus, Role, UserGrantMapping, UserGrantMappingView, unique_properties,
};
use crate::privacy::{
    account_settings_path, app_id_of, entity_app_id, get_enitity_reference, entity_prefix, entity_reference_prefix, owner_prefix,
    owner_reference_prefix, query_pairs, reports, setting_json_of, setting_name, setting_of,
    EssGetResponseBody, EssSetting, EssSettingData, EssUri, PrivacySetting, PrivacySettings,
};
use crate::text::concat;
use crate::times::{ess_time_format, MAX_CHRONO_SECONDS, parse_utc_seconds, utc_seconds, utc_text};
use crate::urls::built_url;

verus! {

/// A user grant as the cloud keeps it; times are whole seconds since the Unix epoch.
pub struct CloudGrantEntry {
    pub role: Role,
    pub capability: String,
    pub status: GrantStatus,
    pub last_modified_time: u64,
    pub app_name: Option<String>,
    pub expiry_time: Option<u64>,
}

/// The plain values of a [`CloudGrantEntry`].
pub struct CloudGrantEntryView {
    pub role: Role,
    pub capability: Seq<char>,
    pub status: GrantStatus,
    pub last_modified_time: u64,
    pub app_name: Option<Seq<char>>,
    pub expiry_time: Option<u64>,
}

impl View for CloudGrantEntry {
    type V = CloudGrantEntryView;

    open spec fn view(&self) -> CloudGrantEntryView {
        CloudGrantEntryView {
            role: self.role,
            capability: self.capability@,
            status: self.status,
            last_modified_time: self.last_modified_time,
            app_name: opt_view(self.app_name),
            expiry_time: self.expiry_time,
        }
    }
}

/// The views of a sequence of grants.
pub open spec fn grant_views(v: Seq<CloudGrantEntry>) -> Seq<CloudGrantEntryView> {
    v.map_values(|e: CloudGrantEntry| e@)
}

/// The value of a member of the settings of an account: one setting or a list.
pub enum ValueType {
    Many(Vec<EssSettingData>),
    Single(EssSettingData),
}

/// A member of the settings of an account: its key and, when the value is an
/// object or an array, the settings that it holds.
pub struct RawSetting {
    pub key: String,
    pub value: Option<ValueType>,
}

/// The answer of the privacy settings service to a request for all the
/// settings of an account, with each member kept under its key.
pub struct RawEssGetResponseBody {
    pub partner_id: String,
    pub account_id: String,
    pub settings: Vec<RawSetting>,
}

/// The seconds since the Unix epoch of a time text of the privacy settings
/// service, or zero when it does not parse.
pub open spec fn seconds_or_zero(text: Seq<char>) -> u64 {
    match utc_seconds(text, ess_time_format()) {
        Some(s) => s,
        None => 0,
    }
}

/// A setting is a grant that allows only when its flag is present and true.
pub open spec fn grant_status_of(allowed: Option<bool>) -> GrantStatus {
    if allowed == Some(true) {
        GrantStatus::Allowed
    } else {
        GrantStatus::Denied
    }
}

/// The grant that a setting stands for under a capability and role.
pub open spec fn cloud_entry_of(d: EssSettingData, cr: CapRoleView) -> CloudGrantEntryView {
    CloudGrantEntryView {
        role: cr.role,
        capability: cr.cap,
        status: grant_status_of(d.allowed),
        last_modified_time: match d.updated {
            Some(t) => seconds_or_zero(t@),
            None => 0,
        },
        app_name: app_id_of(d),
        expiry_time: match d.expiration {
            Some(t) => Some(seconds_or_zero(t@)),
            None => None,
        },
    }
}

/// A user grant written to the cloud and read back keeps its status and its
/// application: the setting written for it reads back as the same grant
/// status, and its entity reference names the same application.
pub proof fn law_grant_round_trip(status: GrantStatus, app: Option<Seq<char>>)
    ensures
        grant_status_of(Some(status == GrantStatus::Allowed)) == status,
        app is Some ==> (entity_urn(app) matches Some(u) && entity_app_id(u) == app->0),
{
    if app is Some {
        crate::privacy::law_entity_reference_round_trip(app->0);
    }
}

/// The capability and role of the first mapping entry for `property`.
pub open spec fn first_property(m: Seq<UserGrantMappingView>, property: Seq<char>) -> Option<CapRoleView>
    decreases m.len(),
{
    if m.len() == 0 {
        None
    } else if m[0].property == property {
        Some(m[0].cap_role)
    } else {
        first_property(m.skip(1), property)
    }
}

/// The grants that a member's value stands for under a capability and role.
pub open spec fn entries_of(v: Option<ValueType>, cr: CapRoleView) -> Seq<CloudGrantEntryView> {
    match v {
        None => Seq::empty(),
        Some(ValueType::Single(d)) => seq![cloud_entry_of(d, cr)],
        Some(ValueType::Many(ds)) => ds@.map_values(|d: EssSettingData| cloud_entry_of(d, cr)),
    }
}

/// The grants of a list of members: for each member, in order, whose key the
/// mapping knows, the grants of its value under the mapped capability and role.
pub open spec fn grants_of(settings: Seq<RawSetting>, m: Seq<UserGrantMappingView>) -> Seq<CloudGrantEntryView>
    decreases settings.len(),
{
    if settings.len() == 0 {
        Seq::empty()
    } else {
        let rest = grants_of(settings.drop_last(), m);
        match first_property(m, settings.last().key@) {
            Some(cr) => rest + entries_of(settings.last().value, cr),
            None => rest,
        }
    }
}

fn seconds_of(text: &String) -> (r: u64)
    ensures
        r == seconds_or_zero(text@),
{
    match RawEssGetResponseBody::date_str_to_std_duration_from_epoch(text.as_str()) {
        Some(s) => s,
        None => 0,
    }
}

fn lookup_cap_role(m: &Vec<UserGrantMapping>, key: &String) -> (r: Option<CapRole>)
    ensures
        match r {
            Some(c) => first_property(mapping_views(m@), key@) == Some(c@),
            None => first_property(mapping_views(m@), key@) is None,
        },
{
    let ghost mv = mapping_views(m@);
    assert(mv.skip(0) =~= mv);
    let mut i: usize = 0;
    while i < m.len()
        invariant
            i <= m@.len(),
            mv == mapping_views(m@),
            mv.len() == m@.len(),
            first_property(mv, key@) == first_property(mv.skip(i as int), key@),
        decreases m@.len() - i,
    {
        assert(mv.skip(i as int)[0] == mv[i as int]);
        assert(mv.skip(i as int).skip(1) =~= mv.skip(i + 1));
        if m[i].property == *key {
            return Some(m[i].cap_role.duplicate());
        }
        i = i + 1;
    }
    assert(mv.skip(i as int).len() == 0);
    None
}

fn push_entries(out: &mut Vec<CloudGrantEntry>, v: &ValueType, cap_role: &CapRole)
    ensures
        grant_views(final(out)@) == grant_views(old(out)@) + entries_of(Some(*v), cap_role@),
{
    match v {
        ValueType::Single(d) => {
            let ghost before = out@;
            let e = RawEssGetResponseBody::get_cloud_entry(d, cap_role);
            out.push(e);
            assert(grant_views(out@) =~= grant_views(before) + seq![e@]);
        },
        ValueType::Many(ds) => {
            let ghost start = out@;
            let ghost f = |d: EssSettingData| cloud_entry_of(d, cap_role@);
            let mut i: usize = 0;
            while i < ds.len()
                invariant
                    i <= ds@.len(),
                    f == (|d: EssSettingData| cloud_entry_of(d, cap_role@)),
                    grant_views(out@) =~= grant_views(start) + ds@.take(i as int).map_values(f),
                decreases ds@.len() - i,
            {
                let ghost before = out@;
                let e = RawEssGetResponseBody::get_cloud_entry(&ds[i], cap_role);
                out.push(e);
                assert(ds@.take(i + 1).map_values(f) =~= ds@.take(i as int).map_values(f).push(f(ds@[i as int])));
                assert(grant_views(out@) =~= grant_views(before).push(e@));
                i = i + 1;
            }
            assert(ds@.take(ds@.len() as int) =~= ds@);
        },
    }
}

impl RawEssGetResponseBody {
    /// The seconds since the Unix epoch of a time text of the privacy settings
    /// service, when it parses and does not lie before the epoch.
    pub fn date_str_to_std_duration_from_epoch(timestamp: &str) -> (r: Option<u64>)
        ensures
            r == utc_seconds(timestamp@, ess_time_format()),
    {
        parse_utc_seconds(timestamp, "%Y-%m-%dT%H:%M:%SZ")
    }

    /// The grant that `settings` stands for under `cap_role`.
    pub fn get_cloud_entry(settings: &EssSettingData, cap_role: &CapRole) -> (r: CloudGrantEntry)
        ensures
            r@ == cloud_entry_of(*settings, cap_role@),
    {
        let status = match settings.allowed {
            Some(true) => GrantStatus::Allowed,
            _ => GrantStatus::Denied,
        };
        let last_modified_time = match &settings.updated {
            Some(t) => seconds_of(t),
            None => 0,
        };
        let expiry_time = match &settings.expiration {
            Some(t) => Some(seconds_of(t)),
            None => None,
        };
        CloudGrantEntry {
            role: cap_role.role,
            capability: cap_role.cap.clone(),
            status,
            last_modified_time,
            app_name: settings.as_app_id(),
            expiry_time,
        }
    }

    /// The user grants that the settings of the account stand for under a
    /// mapping from setting keys to capabilities and roles.
    pub fn get_grants(&self, user_grants_mapping: &Vec<UserGrantMapping>) -> (r: Vec<CloudGrantEntry>)
        requires
            unique_properties(mapping_views(user_grants_mapping@)),
        ensures
            grant_views(r@) == grants_of(self.settings@, mapping_views(user_grants_mapping@)),
    {
        let ghost m = mapping_views(user_grants_mapping@);
        let ghost all = self.settings@;
        let mut out: Vec<CloudGrantEntry> = Vec::new();
        let mut i: usize = 0;
        while i < self.settings.len()
            invariant
                i <= all.len(),
                all == self.settings@,
                m == mapping_views(user_grants_mapping@),
                grant_views(out@) == grants_of(all.take(i as int), m),
            decreases all.len() - i,
        {
            assert(all.take(i + 1).drop_last() =~= all.take(i as int));
            assert(all.take(i + 1).last() == all[i as int]);
            let entry = &self.settings[i];
            match lookup_cap_role(user_grants_mapping, &entry.key) {
                Some(cap_role) => {
                    match &entry.value {
                        Some(v) => push_entries(&mut out, v, &cap_role),
                        None => {
                            assert(grant_views(out@) + Seq::<CloudGrantEntryView>::empty() =~= grant_views(out@));
                        },
                    }
                },
                None => {},
            }
            i = i + 1;
        }
        assert(all.take(all.len() as int) =~= all);
        out
    }
}

/// The parameters of a request for one privacy setting.
pub struct GetPropertyParams {
    pub setting: PrivacySetting,
    pub dist_session: DistributorSession,
}

/// The parameters of a request that sets one privacy setting.
pub struct SetPropertyParams {
    pub setting: PrivacySetting,
    pub value: bool,
    pub dist_session: DistributorSession,
}

/// A user grant to be kept in the cloud for a distributor session.
pub struct UserGrantRequest {
    pub grant_entry: CloudGrantEntry,
    pub dist_session: DistributorSession,
}

/// The HTTP methods that the privacy settings service is called with.
#[derive(Clone, Copy, Debug, PartialEq, Eq, Structural)]
pub enum EssMethod {
    Get,
    Put,
}

/// A call to the privacy settings service: method, URL, bearer token and body.
pub struct EssCall {
    pub method: EssMethod,
    pub url: String,
    pub token: String,
    pub body: String,
}

/// The plain values of an [`EssCall`].
pub struct EssCallView {
    pub method: EssMethod,
    pub url: Seq<char>,
    pub token: Seq<char>,
    pub body: Seq<char>,
}

impl View for EssCall {
    type V = EssCallView;

    open spec fn view(&self) -> EssCallView {
        EssCallView { method: self.method, url: self.url@, token: self.token@, body: self.body@ }
    }
}

/// The URL of the privacy settings of an account with the given filters, for the
/// "ripple" client, or `None` when the endpoint is not a base URL.
pub open spec fn account_settings_url(
    endpoint: Seq<char>,
    partner: Seq<char>,
    account: Seq<char>,
    setting: Option<Seq<char>>,
    entity: Option<Seq<char>>,
    show_expired: Option<bool>,
) -> Option<Seq<char>> {
    built_url(
        endpoint,
        account_settings_path(partner, account),
        query_pairs("ripple"@, setting, entity, show_expired),
    )
}

/// The call that a URL gives, or the service error when there is none.
pub open spec fn call_for(
    url: Option<Seq<char>>,
    method: EssMethod,
    token: Seq<char>,
    body: Seq<char>,
) -> Result<EssCallView, DpabError> {
    match url {
        Some(u) => Ok(EssCallView { method, url: u, token, body }),
        None => Err(DpabError::ServiceError),
    }
}

/// The view of the result of building a call.
pub open spec fn call_view(r: Result<EssCall, DpabError>) -> Result<EssCallView, DpabError> {
    match r {
        Ok(c) => Ok(c@),
        Err(e) => Err(e),
    }
}

/// The application that an application setting is about.
pub open spec fn setting_app(s: PrivacySetting) -> Option<Seq<char>> {
    match s {
        PrivacySetting::AppDataCollection(app) => Some(app@),
        PrivacySetting::AppEntitlementCollection(app) => Some(app@),
        _ => None,
    }
}

/// The URN of an application, where there is one.
pub open spec fn entity_urn(app: Option<Seq<char>>) -> Option<Seq<char>> {
    match app {
        Some(a) => Some(entity_reference_prefix() + a),
        None => None,
    }
}

/// The call that reads one setting of the session's account.
pub open spec fn property_call(endpoint: Seq<char>, s: DistributorSessionView, setting: PrivacySetting) -> Result<EssCallView, DpabError> {
    call_for(
        account_settings_url(endpoint, s.id, s.account_id, Some(setting_name(setting)), setting_app(setting), Some(false)),
        EssMethod::Get,
        s.token,
        Seq::empty(),
    )
}

/// The call that reads all the settings of the session's account.
pub open spec fn settings_call(endpoint: Seq<char>, s: DistributorSessionView) -> Result<EssCallView, DpabError> {
    call_for(account_settings_url(endpoint, s.id, s.account_id, None, None, Some(false)), EssMethod::Get, s.token, Seq::empty())
}

/// The call that sets one setting of the session's account to `value`.
pub open spec fn set_property_call(
    endpoint: Seq<char>,
    s: DistributorSessionView,
    setting: PrivacySetting,
    value: bool,
) -> Result<EssCallView, DpabError> {
    let owner = owner_reference_prefix() + s.account_id;
    let body = "{\""@ + setting_name(setting) + "\": "@ + setting_json_of(Some(value), None, Some(owner), None) + "}"@;
    call_for(
        account_settings_url(endpoint, s.id, s.account_id, None, entity_urn(setting_app(setting)), None),
        EssMethod::Put,
        s.token,
        body,
    )
}

/// The setting key that the first mapping entry for a capability and role names.
pub open spec fn property_for(m: Seq<UserGrantMappingView>, cap: Seq<char>, role: Role) -> Option<Seq<char>>
    decreases m.len(),
{
    if m.len() == 0 {
        None
    } else if m[0].cap_role.cap == cap && m[0].cap_role.role == role {
        Some(m[0].property)
    } else {
        property_for(m.skip(1), cap, role)
    }
}

/// The call that keeps a user grant in the cloud: the grant's setting, as a
/// one-element list under the mapped key, for the grant's application.
pub open spec fn user_grant_call(
    endpoint: Seq<char>,
    m: Seq<UserGrantMappingView>,
    g: CloudGrantEntryView,
    s: DistributorSessionView,
) -> Result<EssCallView, DpabError> {
    match property_for(m, g.capability, g.role) {
        None => Err(DpabError::NotDataFound),
        Some(property) => {
            let expiration = match g.expiry_time {
                Some(t) => Some(utc_text(t, ess_time_format())),
                None => None,
            };
            let data = setting_json_of(
                Some(g.status == GrantStatus::Allowed),
                expiration,
                Some(owner_reference_prefix() + s.account_id),
                entity_urn(g.app_name),
            );
            call_for(
                account_settings_url(endpoint, s.id, s.account_id, None, entity_urn(g.app_name), None),
                EssMethod::Put,
                s.token,
                "{\""@ + property + "\": ["@ + data + "]}"@,
            )
        },
    }
}

/// What a reply of the privacy settings service gives: the body of a success
/// (status 200) whose bytes were text, "no data" for status 404, else the
/// service error.
pub open spec fn reply_outcome(status: u16, body: Option<Seq<char>>) -> Result<Seq<char>, DpabError> {
    if status == 200 {
        match body {
            Some(b) => Ok(b),
            None => Err(DpabError::ServiceError),
        }
    } else if status == 404 {
        Err(DpabError::NotDataFound)
    } else {
        Err(DpabError::ServiceError)
    }
}

/// The view of the result of a reply.
pub open spec fn reply_view(r: Result<String, DpabError>) -> Result<Seq<char>, DpabError> {
    match r {
        Ok(b) => Ok(b@),
        Err(e) => Err(e),
    }
}

/// The service that reads and writes the privacy settings and user grants of
/// the distributor's account.
pub struct PrivacyService {
    pub endpoint: String,
    pub dist_session: DistributorSession,
    pub user_grants_cloud_mapping: Vec<UserGrantMapping>,
}

fn entity_urn_of(app: &Option<String>) -> (r: Option<String>)
    ensures
        opt_view(r) == entity_urn(opt_view(*app)),
{
    match app {
        Some(a) => Some(concat(entity_prefix(), a.as_str())),
        None => None,
    }
}

fn setting_app_of(setting: &PrivacySetting) -> (r: Option<String>)
    ensures
        opt_view(r) == setting_app(*setting),
{
    match setting {
        PrivacySetting::AppDataCollection(app) => Some(app.clone()),
        PrivacySetting::AppEntitlementCollection(app) => Some(app.clone()),
        _ => None,
    }
}

fn copy_setting_kind(setting: &PrivacySetting) -> (r: PrivacySetting)
    ensures
        setting_name(r) == setting_name(*setting),
        setting_app(r) == setting_app(*setting),
{
    match setting {
        PrivacySetting::AppDataCollection(app) => PrivacySetting::AppDataCollection(app.clone()),
        PrivacySetting::AppEntitlementCollection(app) => PrivacySetting::AppEntitlementCollection(app.clone()),
        PrivacySetting::ContinueWatching => PrivacySetting::ContinueWatching,
        PrivacySetting::UnentitledContinueWatching => PrivacySetting::UnentitledContinueWatching,
        PrivacySetting::WatchHistory => PrivacySetting::WatchHistory,
        PrivacySetting::ProductAnalytics => PrivacySetting::ProductAnalytics,
        PrivacySetting::Personalization => PrivacySetting::Personalization,
        PrivacySetting::UnentitledPersonalization => PrivacySetting::UnentitledPersonalization,
        PrivacySetting::RemoteDiagnostics => PrivacySetting::RemoteDiagnostics,
        PrivacySetting::PrimaryContentAdTargeting => PrivacySetting::PrimaryContentAdTargeting,
        PrivacySetting::PrimaryBrowseAdTargeting => PrivacySetting::PrimaryBrowseAdTargeting,
        PrivacySetting::AppContentAdTargeting => PrivacySetting::AppContentAdTargeting,
        PrivacySetting::Acr => PrivacySetting::Acr,
        PrivacySetting::CameraAnalytics => PrivacySetting::CameraAnalytics,
    }
}

fn make_call(url: Result<String, DpabError>, method: EssMethod, token: &String, body: String) -> (r: Result<EssCall, DpabError>)
    requires
        url is Ok || url == Err::<String, DpabError>(DpabError::ServiceError),
    ensures
        call_view(r) == call_for(
            match url {
                Ok(u) => Some(u@),
                Err(_) => None,
            },
            method,
            token@,
            body@,
        ),
{
    match url {
        Ok(u) => Ok(EssCall { method, url: u, token: token.clone(), body }),
        Err(e) => Err(e),
    }
}

fn find_property(m: &Vec<UserGrantMapping>, cap: &String, role: Role) -> (r: Option<String>)
    ensures
        opt_view(r) == property_for(mapping_views(m@), cap@, role),
{
    let ghost mv = mapping_views(m@);
    assert(mv.skip(0) =~= mv);
    let mut i: usize = 0;
    while i < m.len()
        invariant
            i <= m@.len(),
            mv == mapping_views(m@),
            mv.len() == m@.len(),
            property_for(mv, cap@, role) == property_for(mv.skip(i as int), cap@, role),
        decreases m@.len() - i,
    {
        assert(mv.skip(i as int)[0] == mv[i as int]);
        assert(mv.skip(i as int).skip(1) =~= mv.skip(i + 1));
        if m[i].cap_role.cap == *cap && m[i].cap_role.role == role {
            return Some(m[i].property.clone());
        }
        i = i + 1;
    }
    assert(mv.skip(i as int).len() == 0);
    None
}

impl PrivacyService {
    /// A service for the distributor session, with the mapping from setting
    /// keys to the capabilities that they grant.
    pub fn new(
        endpoint: String,
        dist_session: DistributorSession,
        user_grants_cloud_mapping: Vec<UserGrantMapping>,
    ) -> (r: PrivacyService)
        ensures
            r.endpoint == endpoint,
            r.dist_session == dist_session,
            r.user_grants_cloud_mapping == user_grants_cloud_mapping,
    {
        PrivacyService { endpoint, dist_session, user_grants_cloud_mapping }
    }

    /// The call that reads the setting of a request for one privacy setting.
    pub fn get_property_call(&self, params: &GetPropertyParams) -> (r: Result<EssCall, DpabError>)
        ensures
            call_view(r) == property_call(self.endpoint@, params.dist_session@, params.setting),
    {
        let session = &params.dist_session;
        let uri = EssUri::new(
            self.endpoint.clone(),
            session.id.clone(),
            session.account_id.clone(),
            Some(EssSetting::new(copy_setting_kind(&params.setting), None, None, None, None, None)),
            setting_app_of(&params.setting),
            Some(false),
        );
        make_call(uri.into_privacy_settings_url(), EssMethod::Get, &session.token, String::new())
    }

    /// The call that reads all the settings of the session's account.
    pub fn get_settings_call(&self, session: &DistributorSession) -> (r: Result<EssCall, DpabError>)
        ensures
            call_view(r) == settings_call(self.endpoint@, session@),
    {
        let uri = EssUri::new(
            self.endpoint.clone(),
            session.id.clone(),
            session.account_id.clone(),
            None,
            None,
            Some(false),
        );
        make_call(uri.into_privacy_settings_url(), EssMethod::Get, &session.token, String::new())
    }

    /// The value of the requested setting in the account's settings: the
    /// service error when the reply did not parse or does not hold the setting.
    pub fn get_property_result(setting: PrivacySetting, response: Option<EssGetResponseBody>) -> (r: Result<bool, DpabError>)
        requires
            response matches Some(b) ==> (setting_of(b.settings, setting) matches Some(s) ==> s.data.allowed is Some),
        ensures
            r == (match response {
                Some(b) => match setting_of(b.settings, setting) {
                    Some(s) => Ok(s.data.allowed.unwrap()),
                    None => Err(DpabError::ServiceError),
                },
                None => Err(DpabError::ServiceError),
            }),
    {
        match response {
            Some(b) => match b.get_setting(setting) {
                Some(s) => match s.data.allowed {
                    Some(v) => Ok(v),
                    None => Err(DpabError::ServiceError),
                },
                None => Err(DpabError::ServiceError),
            },
            None => Err(DpabError::ServiceError),
        }
    }

    /// The privacy settings of the account, from a reply that parsed.
    pub fn get_properties(response: Option<EssGetResponseBody>) -> (r: Result<PrivacySettings, DpabError>)
        ensures
            match response {
                Some(b) => r matches Ok(p) && reports(p, b.settings),
                None => r == Err::<PrivacySettings, DpabError>(DpabError::ServiceError),
            },
    {
        match response {
            Some(b) => Ok(b.get_settings()),
            None => Err(DpabError::ServiceError),
        }
    }

    /// The user grants of the account, from a reply that parsed.
    pub fn get_user_grants(&self, response: Option<RawEssGetResponseBody>) -> (r: Result<Vec<CloudGrantEntry>, DpabError>)
        requires
            unique_properties(mapping_views(self.user_grants_cloud_mapping@)),
        ensures
            match response {
                Some(b) => r matches Ok(g) && grant_views(g@) == grants_of(
                    b.settings@,
                    mapping_views(self.user_grants_cloud_mapping@),
                ),
                None => r matches Err(e) && e == DpabError::ServiceError,
            },
    {
        match response {
            Some(b) => Ok(b.get_grants(&self.user_grants_cloud_mapping)),
            None => Err(DpabError::ServiceError),
        }
    }

    /// The call that sets one privacy setting of the session's account.
    pub fn set_property_call(&self, params: &SetPropertyParams) -> (r: Result<EssCall, DpabError>)
        ensures
            call_view(r) == set_property_call(
                self.endpoint@,
                params.dist_session@,
                params.setting,
                params.value,
            ),
    {
        let session = &params.dist_session;
        let entity = entity_urn_of(&setting_app_of(&params.setting));
        let owner = concat(owner_prefix(), session.account_id.as_str());
        let setting = EssSetting::new(copy_setting_kind(&params.setting), Some(params.value), None, Some(owner), None, None);
        let body = setting.to_body();
        let uri = EssUri::new(self.endpoint.clone(), session.id.clone(), session.account_id.clone(), None, entity, None);
        make_call(uri.into_privacy_settings_url(), EssMethod::Put, &session.token, body)
    }

    /// The call that keeps a user grant in the cloud; "no data" when the
    /// mapping names no setting for the grant's capability and role.
    pub fn set_user_grant_call(&self, params: &UserGrantRequest) -> (r: Result<EssCall, DpabError>)
        requires
            params.grant_entry.expiry_time matches Some(t) ==> t <= MAX_CHRONO_SECONDS,
        ensures
            call_view(r) == user_grant_call(
                self.endpoint@,
                mapping_views(self.user_grants_cloud_mapping@),
                params.grant_entry@,
                params.dist_session@,
            ),
    {
        let grant = &params.grant_entry;
        let session = &params.dist_session;
        let property = match find_property(&self.user_grants_cloud_mapping, &grant.capability, grant.role) {
            Some(p) => p,
            None => return Err(DpabError::NotDataFound),
        };
        let entity = entity_urn_of(&grant.app_name);
        let expiration = match grant.expiry_time {
            Some(t) => Some(EssSettingData::get_timestamp_str_from_duration(t)),
            None => None,
        };
        let data = EssSettingData {
            allowed: Some(grant.status == GrantStatus::Allowed),
            expiration,
            owner_reference: Some(concat(owner_prefix(), session.account_id.as_str())),
            entity_reference: copy_opt_string(&entity),
            updated: None,
        };
        let a = concat("{\"", property.as_str());
        let b = concat(a.as_str(), "\": [");
        let c = concat(b.as_str(), data.to_json().as_str());
        let body = concat(c.as_str(), "]}");
        let uri = EssUri::new(self.endpoint.clone(), session.id.clone(), session.account_id.clone(), None, entity, None);
        make_call(uri.into_privacy_settings_url(), EssMethod::Put, &session.token, body)
    }

    /// What a reply of the privacy settings service gives: its body for status
    /// 200 when the body is text (`body` is `None` when it was not), "no data"
    /// for status 404, else the service error.
    pub fn ess_reply(status: u16, body: Option<String>) -> (r: Result<String, DpabError>)
        ensures
            reply_view(r) == reply_outcome(status, opt_view(body)),
    {
        if status == 200 {
            match body {
                Some(b) => Ok(b),
                None => Err(DpabError::ServiceError),
            }
        } else if status == 404 {
            Err(DpabError::NotDataFound)
        } else {
            Err(DpabError::ServiceError)
        }
    }
}

fn copy_opt_string(o: &Option<String>) -> (r: Option<String>)
    ensures
        opt_view(r) == opt_view(*o),
{
    match o {
        Some(s) => Some(s.clone()),
        None => None,
    }
}

/// The exclusion of a setting's data from a partner's usage data: the data
/// events, the applications (as entity references) and whether derived data
/// is excluded too.
pub struct ExclusionData {
    pub data_events: Vec<String>,
    pub entity_reference: Vec<String>,
    pub derivative_propagation: bool,
}

/// The exclusion policy of a partner as the privacy settings service reports it.
pub struct Exclusions {
    pub acr: Option<ExclusionData>,
    pub app_content_ad_targeting: Option<ExclusionData>,
    pub business_analytics: Option<ExclusionData>,
    pub camera_analytics: Option<ExclusionData>,
    pub continue_watching: Option<ExclusionData>,
    pub personalization: Option<ExclusionData>,
    pub primary_browse_ad_targeting: Option<ExclusionData>,
    pub primary_content_ad_targeting: Option<ExclusionData>,
    pub product_analytics: Option<ExclusionData>,
    pub remote_diagnostics: Option<ExclusionData>,
    pub unentitled_continue_watching: Option<ExclusionData>,
    pub unentitled_personalization: Option<ExclusionData>,
    pub watch_history: Option<ExclusionData>,
}

/// The answer of the privacy settings service to a request for a partner's exclusions.
pub struct ExclusionGetResponseBody {
    pub partner_id: String,
    pub exclusions: Exclusions,
}

/// The exclusion of a setting's data as the platform is told it: the data
/// events by name, and the applications by identifier.
pub struct ExclusionPolicyData {
    pub data_events: Vec<String>,
    pub entity_reference: Vec<String>,
    pub derivative_propagation: bool,
}

/// The exclusion policy of a partner as the platform is told it.
pub struct ExclusionPolicy {
    pub acr: Option<ExclusionPolicyData>,
    pub app_content_ad_targeting: Option<ExclusionPolicyData>,
    pub business_analytics: Option<ExclusionPolicyData>,
    pub camera_analytics: Option<ExclusionPolicyData>,
    pub continue_watching: Option<ExclusionPolicyData>,
    pub personalization: Option<ExclusionPolicyData>,
    pub primary_browse_ad_targeting: Option<ExclusionPolicyData>,
    pub primary_content_ad_targeting: Option<ExclusionPolicyData>,
    pub product_analytics: Option<ExclusionPolicyData>,
    pub remote_diagnostics: Option<ExclusionPolicyData>,
    pub unentitled_continue_watching: Option<ExclusionPolicyData>,
    pub unentitled_personalization: Option<ExclusionPolicyData>,
    pub watch_history: Option<ExclusionPolicyData>,
}

/// Whether `p` tells the platform the exclusion `d`: the same events, each
/// entity reference as the application it names, the same propagation.
pub open spec fn policy_of(d: Option<ExclusionData>, p: Option<ExclusionPolicyData>) -> bool {
    match d {
        None => p is None,
        Some(x) => p matches Some(y) && views(y.data_events@) == views(x.data_events@)
            && y.entity_reference@.len() == x.entity_reference@.len() && (forall|i: int|
            0 <= i < y.entity_reference@.len() ==> (#[trigger] y.entity_reference@[i])@ == entity_app_id(
                x.entity_reference@[i]@,
            )) && y.derivative_propagation == x.derivative_propagation,
    }
}

/// Whether `p` tells the platform the exclusions `e`, setting by setting.
pub open spec fn policy_of_all(e: Exclusions, p: ExclusionPolicy) -> bool {
    &&& policy_of(e.acr, p.acr)
    &&& policy_of(e.app_content_ad_targeting, p.app_content_ad_targeting)
    &&& policy_of(e.business_analytics, p.business_analytics)
    &&& policy_of(e.camera_analytics, p.camera_analytics)
    &&& policy_of(e.continue_watching, p.continue_watching)
    &&& policy_of(e.personalization, p.personalization)
    &&& policy_of(e.primary_browse_ad_targeting, p.primary_browse_ad_targeting)
    &&& policy_of(e.primary_content_ad_targeting, p.primary_content_ad_targeting)
    &&& policy_of(e.product_analytics, p.product_analytics)
    &&& policy_of(e.remote_diagnostics, p.remote_diagnostics)
    &&& policy_of(e.unentitled_continue_watching, p.unentitled_continue_watching)
    &&& policy_of(e.unentitled_personalization, p.unentitled_personalization)
    &&& policy_of(e.watch_history, p.watch_history)
}

/// Whether a policy excludes nothing.
pub open spec fn policy_empty(p: ExclusionPolicy) -> bool {
    &&& p.acr is None
    &&& p.app_content_ad_targeting is None
    &&& p.business_analytics is None
    &&& p.camera_analytics is None
    &&& p.continue_watching is None
    &&& p.personalization is None
    &&& p.primary_browse_ad_targeting is None
    &&& p.primary_content_ad_targeting is None
    &&& p.product_analytics is None
    &&& p.remote_diagnostics is None
    &&& p.unentitled_continue_watching is None
    &&& p.unentitled_personalization is None
    &&& p.watch_history is None
}

impl ExclusionPolicy {
    /// The policy that excludes nothing.
    pub fn default() -> (r: ExclusionPolicy)
        ensures
            policy_empty(r),
    {
        ExclusionPolicy {
            acr: None,
            app_content_ad_targeting: None,
            business_analytics: None,
            camera_analytics: None,
            continue_watching: None,
            personalization: None,
            primary_browse_ad_targeting: None,
            primary_content_ad_targeting: None,
            product_analytics: None,
            remote_diagnostics: None,
            unentitled_continue_watching: None,
            unentitled_personalization: None,
            watch_history: None,
        }
    }
}

impl ExclusionGetResponseBody {
    /// The exclusion of one setting as the platform is told it.
    pub fn get_data(&self, excl_data: &Option<ExclusionData>) -> (r: Option<ExclusionPolicyData>)
        ensures
            policy_of(*excl_data, r),
    {
        match excl_data {
            None => None,
            Some(data) => {
                let events = crate::model::copy_strings(&data.data_events);
                let refs = get_enitity_reference(crate::model::copy_strings(&data.entity_reference));
                Some(
                    ExclusionPolicyData {
                        data_events: events,
                        entity_reference: refs,
                        derivative_propagation: data.derivative_propagation,
                    },
                )
            },
        }
    }

    /// The exclusion policy of the partner as the platform is told it.
    pub fn get_exclusions(&self) -> (r: ExclusionPolicy)
        ensures
            policy_of_all(self.exclusions, r),
    {
        let e = &self.exclusions;
        ExclusionPolicy {
            acr: self.get_data(&e.acr),
            app_content_ad_targeting: self.get_data(&e.app_content_ad_targeting),
            business_analytics: self.get_data(&e.business_analytics),
            camera_analytics: self.get_data(&e.camera_analytics),
            continue_watching: self.get_data(&e.continue_watching),
            personalization: self.get_data(&e.personalization),
            primary_browse_ad_targeting: self.get_data(&e.primary_browse_ad_targeting),
            primary_content_ad_targeting: self.get_data(&e.primary_content_ad_targeting),
            product_analytics: self.get_data(&e.product_analytics),
            remote_diagnostics: self.get_data(&e.remote_diagnostics),
            unentitled_continue_watching: self.get_data(&e.unentitled_continue_watching),
            unentitled_personalization: self.get_data(&e.unentitled_personalization),
            watch_history: self.get_data(&e.watch_history),
        }
    }
}

/// The platform is told an exclusion with the applications it names: where the
/// reply's `i`-th entity reference is the URN of application `app`, the policy's
/// `i`-th reference is `app`; a reference that is no application URN is passed
/// on as it is. The data events and the propagation are those of the reply.
pub proof fn law_exclusion_names_applications(
    d: Option<ExclusionData>,
    p: Option<ExclusionPolicyData>,
    i: int,
    app: Seq<char>,
)
    requires
        policy_of(d, p),
        d is Some,
        0 <= i < d->0.entity_reference@.len(),
    ensures
        p is Some,
        p->0.entity_reference@.len() == d->0.entity_reference@.len(),
        d->0.entity_reference@[i]@ == entity_reference_prefix() + app ==> p->0.entity_reference@[i]@ == app,
        !crate::text::is_prefix(entity_reference_prefix(), d->0.entity_reference@[i]@)
            ==> p->0.entity_reference@[i]@ == d->0.entity_reference@[i]@,
        views(p->0.data_events@) == views(d->0.data_events@),
        p->0.derivative_propagation == d->0.derivative_propagation,
{
    let x = d->0;
    let y = p->0;
    assert(y.entity_reference@[i]@ == entity_app_id(x.entity_reference@[i]@));
    crate::privacy::law_entity_reference_round_trip(app);
}

/// Every setting of a partner's exclusions is told to the platform, under the
/// same setting, with the applications that its references name.
pub proof fn law_exclusions_per_setting(body: ExclusionGetResponseBody, policy: ExclusionPolicy, i: int, app: Seq<char>)
    requires
        policy_of_all(body.exclusions, policy),
        body.exclusions.acr is Some,
        0 <= i < body.exclusions.acr->0.entity_reference@.len(),
        body.exclusions.acr->0.entity_reference@[i]@ == entity_reference_prefix() + app,
    ensures
        policy.acr matches Some(y) && y.entity_reference@[i]@ == app,
{
    law_exclusion_names_applications(body.exclusions.acr, policy.acr, i, app);
}

/// The call that reads the usage data exclusions of the session's partner.
pub open spec fn exclusions_call(endpoint: Seq<char>, s: DistributorSessionView) -> Result<EssCallView, DpabError> {
    call_for(
        built_url(
            endpoint,
            seq!["v1"@, "partners"@, s.id, "privacySettings"@, "policy"@, "usageDataExclusions"@],
            query_pairs("ripple"@, None, None, None),
        ),
        EssMethod::Get,
        s.token,
        Seq::empty(),
    )
}

impl PrivacyService {
    /// The call that reads the usage data exclusions of the session's partner.
    pub fn get_exclusions_call(&self, session: &DistributorSession) -> (r: Result<EssCall, DpabError>)
        ensures
            call_view(r) == exclusions_call(self.endpoint@, session@),
    {
        let uri = EssUri::new(
            self.endpoint.clone(),
            session.id.clone(),
            session.account_id.clone(),
            None,
            None,
            Some(false),
        );
        make_call(uri.into_usage_data_exclusion_url(), EssMethod::Get, &session.token, String::new())
    }

    /// The exclusions of the partner: the empty policy when the service
    /// answered with an error (`reply_failed`), whatever the error; else the
    /// reported policy when the reply parsed (`parsed`), or the service error.
    pub fn get_partner_exclusions(reply_failed: bool, parsed: Option<ExclusionGetResponseBody>) -> (r: Result<ExclusionPolicy, DpabError>)
        ensures
            reply_failed ==> (r matches Ok(p) && policy_empty(p)),
            !reply_failed ==> match parsed {
                Some(b) => r matches Ok(p) && policy_of_all(b.exclusions, p),
                None => r matches Err(e) && e == DpabError::ServiceError,
            },
    {
        if reply_failed {
            return Ok(ExclusionPolicy::default());
        }
        match parsed {
            Some(b) => Ok(b.get_exclusions()),
            None => Err(DpabError::ServiceError),
        }
    }
}

} // verus!
