use vstd::prelude::*;
use vstd::string::*;

use crate::config::opt_view;
use crate::json::{flag_json, flag_to_json, opt_json, opt_to_json};
use crate::model::{CapRole, DistributorSession, DpabError, GrantStatus, Role, UserGrantMapping};
use crate::text::{concat, is_prefix, starts_with};
use crate::times::{ess_time_format, MAX_CHRONO_SECONDS, parse_utc_seconds, utc_seconds, format_utc_seconds, utc_text};
use crate::urls::{build_url, built_url};

verus! {

/// The prefix of the URN of an application.
pub open spec fn entity_reference_prefix() -> Seq<char> {
    "xrn:xvp:application:"@
}

/// The prefix of the URN of a subscriber account.
pub open spec fn owner_reference_prefix() -> Seq<char> {
    "xrn:xcal:subscriber:account:"@
}

pub(crate) fn entity_prefix() -> (r: &'static str)
    ensures
        r@ == entity_reference_prefix(),
        r@.len() == 20,
{
    proof {
        reveal_strlit("xrn:xvp:application:");
    }
    "xrn:xvp:application:"
}

pub(crate) fn owner_prefix() -> (r: &'static str)
    ensures
        r@ == owner_reference_prefix(),
{
    "xrn:xcal:subscriber:account:"
}

/// The application named by an entity reference: what follows the application
/// URN prefix, or the whole reference when it does not carry the prefix.
pub open spec fn entity_app_id(reference: Seq<char>) -> Seq<char> {
    if is_prefix(entity_reference_prefix(), reference) {
        reference.skip(entity_reference_prefix().len() as int)
    } else {
        reference
    }
}

/// The application that a URN written for an application names is that
/// application: reading back an entity reference gives the identifier it was
/// made from.
pub proof fn law_entity_reference_round_trip(app: Seq<char>)
    ensures
        entity_app_id(entity_reference_prefix() + app) == app,
{
    let r = entity_reference_prefix() + app;
    assert(r.subrange(0, entity_reference_prefix().len() as int) =~= entity_reference_prefix());
    assert(r.skip(entity_reference_prefix().len() as int) =~= app);
}

/// The application named by an entity reference; always present.
pub fn parse_entity_reference(reference: &String) -> (r: Option<String>)
    ensures
        opt_view(r) == Some(entity_app_id(reference@)),
{
    let prefix = entity_prefix();
    if starts_with(reference.as_str(), prefix) {
        let n = reference.as_str().unicode_len();
        let rest = reference.as_str().substring_char(20, n);
        assert(rest@ =~= reference@.skip(20));
        Some(rest.to_owned())
    } else {
        Some(reference.clone())
    }
}

/// The applications named by a list of entity references.
pub fn get_enitity_reference(er_list: Vec<String>) -> (r: Vec<String>)
    ensures
        r@.len() == er_list@.len(),
        forall|i: int| 0 <= i < r@.len() ==> (#[trigger] r@[i])@ == entity_app_id(er_list@[i]@),
{
    let mut r: Vec<String> = Vec::new();
    let mut i: usize = 0;
    while i < er_list.len()
        invariant
            i <= er_list@.len(),
            r@.len() == i,
            forall|k: int| 0 <= k < i ==> (#[trigger] r@[k])@ == entity_app_id(er_list@[k]@),
        decreases er_list@.len() - i,
    {
        let app = match parse_entity_reference(&er_list[i]) {
            Some(a) => a,
            None => er_list[i].clone(),
        };
        r.push(app);
        i = i + 1;
    }
    r
}

/// One privacy setting as the privacy settings service keeps it.
pub struct EssSettingData {
    pub allowed: Option<bool>,
    pub expiration: Option<String>,
    pub owner_reference: Option<String>,
    pub entity_reference: Option<String>,
    pub updated: Option<String>,
}

fn copy_opt(o: &Option<String>) -> (r: Option<String>)
    ensures
        r == *o,
{
    match o {
        Some(s) => Some(s.clone()),
        None => None,
    }
}

impl EssSettingData {
    /// A setting with the given fields.
    pub fn new(
        allowed: Option<bool>,
        expiration: Option<String>,
        owner_reference: Option<String>,
        entity_reference: Option<String>,
        updated: Option<String>,
    ) -> (r: EssSettingData)
        ensures
            r == (EssSettingData { allowed, expiration, owner_reference, entity_reference, updated }),
    {
        EssSettingData { allowed, expiration, owner_reference, entity_reference, updated }
    }

    /// A setting with no field set.
    pub fn default() -> (r: EssSettingData)
        ensures
            r == (EssSettingData {
                allowed: None,
                expiration: None,
                owner_reference: None,
                entity_reference: None,
                updated: None,
            }),
    {
        EssSettingData {
            allowed: None,
            expiration: None,
            owner_reference: None,
            entity_reference: None,
            updated: None,
        }
    }

    /// A copy of this setting.
    pub fn duplicate(&self) -> (r: EssSettingData)
        ensures
            r == *self,
    {
        EssSettingData {
            allowed: self.allowed,
            expiration: copy_opt(&self.expiration),
            owner_reference: copy_opt(&self.owner_reference),
            entity_reference: copy_opt(&self.entity_reference),
            updated: copy_opt(&self.updated),
        }
    }

    /// The application that this setting is about, read from its entity reference.
    pub fn as_app_id(&self) -> (r: Option<String>)
        ensures
            opt_view(r) == app_id_of(*self),
    {
        match &self.entity_reference {
            Some(reference) => parse_entity_reference(reference),
            None => None,
        }
    }

    /// The JSON object that the privacy settings service is sent for this
    /// setting: its flag and references under their JSON names; the update
    /// time is never sent.
    pub fn to_json(&self) -> (r: String)
        ensures
            r@ == setting_data_json(*self),
    {
        let mut out = concat("{\"allowed\":", flag_to_json(self.allowed).as_str());
        out = concat(out.as_str(), ",\"expiration\":");
        out = concat(out.as_str(), opt_to_json(&self.expiration).as_str());
        out = concat(out.as_str(), ",\"ownerReference\":");
        out = concat(out.as_str(), opt_to_json(&self.owner_reference).as_str());
        out = concat(out.as_str(), ",\"entityReference\":");
        out = concat(out.as_str(), opt_to_json(&self.entity_reference).as_str());
        concat(out.as_str(), "}")
    }

    /// The time text of `seconds` after the Unix epoch, as the privacy settings service writes it.
    pub fn get_timestamp_str_from_duration(seconds: u64) -> (r: String)
        requires
            seconds <= MAX_CHRONO_SECONDS,
        ensures
            r@ == utc_text(seconds, ess_time_format()),
    {
        format_utc_seconds(seconds, "%Y-%m-%dT%H:%M:%SZ")
    }
}

/// The JSON object of a setting with the given flag and references, as it is
/// sent to the privacy settings service.
pub open spec fn setting_json_of(
    allowed: Option<bool>,
    expiration: Option<Seq<char>>,
    owner_reference: Option<Seq<char>>,
    entity_reference: Option<Seq<char>>,
) -> Seq<char> {
    "{\"allowed\":"@ + flag_json(allowed) + ",\"expiration\":"@ + opt_json(expiration)
        + ",\"ownerReference\":"@ + opt_json(owner_reference) + ",\"entityReference\":"@
        + opt_json(entity_reference) + "}"@
}

/// The JSON text of a setting as it is sent to the privacy settings service.
pub open spec fn setting_data_json(d: EssSettingData) -> Seq<char> {
    setting_json_of(d.allowed, opt_view(d.expiration), opt_view(d.owner_reference), opt_view(d.entity_reference))
}

/// The application that a setting is about.
pub open spec fn app_id_of(d: EssSettingData) -> Option<Seq<char>> {
    match d.entity_reference {
        Some(reference) => Some(entity_app_id(reference@)),
        None => None,
    }
}

/// The privacy settings that the platform knows.
pub enum PrivacySetting {
    AppDataCollection(String),
    AppEntitlementCollection(String),
    ContinueWatching,
    UnentitledContinueWatching,
    WatchHistory,
    ProductAnalytics,
    Personalization,
    UnentitledPersonalization,
    RemoteDiagnostics,
    PrimaryContentAdTargeting,
    PrimaryBrowseAdTargeting,
    AppContentAdTargeting,
    Acr,
    CameraAnalytics,
}

/// The name of a privacy setting at the privacy settings service.
pub open spec fn setting_name(s: PrivacySetting) -> Seq<char> {
    match s {
        PrivacySetting::AppDataCollection(_) => "xcal:appDataCollection"@,
        PrivacySetting::AppEntitlementCollection(_) => "xcal:appEntitlementCollection"@,
        PrivacySetting::ContinueWatching => "xcal:continueWatching"@,
        PrivacySetting::UnentitledContinueWatching => "xcal:unentitledContinueWatching"@,
        PrivacySetting::WatchHistory => "xcal:watchHistory"@,
        PrivacySetting::ProductAnalytics => "xcal:productAnalytics"@,
        PrivacySetting::Personalization => "xcal:personalization"@,
        PrivacySetting::UnentitledPersonalization => "xcal:unentitledPersonalization"@,
        PrivacySetting::RemoteDiagnostics => "xcal:remoteDiagnostics"@,
        PrivacySetting::PrimaryContentAdTargeting => "xcal:primaryContentAdTargeting"@,
        PrivacySetting::PrimaryBrowseAdTargeting => "xcal:primaryBrowseAdTargeting"@,
        PrivacySetting::AppContentAdTargeting => "xcal:appContentAdTargeting"@,
        PrivacySetting::Acr => "xcal:acr"@,
        PrivacySetting::CameraAnalytics => "xcal:cameraAnalytics"@,
    }
}

/// The name of a privacy setting at the privacy settings service.
pub fn privacy_setting_name(s: &PrivacySetting) -> (r: &'static str)
    ensures
        r@ == setting_name(*s),
{
    match s {
        PrivacySetting::AppDataCollection(_) => "xcal:appDataCollection",
        PrivacySetting::AppEntitlementCollection(_) => "xcal:appEntitlementCollection",
        PrivacySetting::ContinueWatching => "xcal:continueWatching",
        PrivacySetting::UnentitledContinueWatching => "xcal:unentitledContinueWatching",
        PrivacySetting::WatchHistory => "xcal:watchHistory",
        PrivacySetting::ProductAnalytics => "xcal:productAnalytics",
        PrivacySetting::Personalization => "xcal:personalization",
        PrivacySetting::UnentitledPersonalization => "xcal:unentitledPersonalization",
        PrivacySetting::RemoteDiagnostics => "xcal:remoteDiagnostics",
        PrivacySetting::PrimaryContentAdTargeting => "xcal:primaryContentAdTargeting",
        PrivacySetting::PrimaryBrowseAdTargeting => "xcal:primaryBrowseAdTargeting",
        PrivacySetting::AppContentAdTargeting => "xcal:appContentAdTargeting",
        PrivacySetting::Acr => "xcal:acr",
        PrivacySetting::CameraAnalytics => "xcal:cameraAnalytics",
    }
}

/// A privacy setting together with its name at the privacy settings service.
pub struct EssSetting {
    pub name: &'static str,
    pub data: EssSettingData,
}

impl EssSetting {
    /// The setting `privacy_setting` with the given value and fields.
    pub fn new(
        privacy_setting: PrivacySetting,
        value: Option<bool>,
        expiration: Option<String>,
        owner_reference: Option<String>,
        entity_reference: Option<String>,
        updated: Option<String>,
    ) -> (r: EssSetting)
        ensures
            r.name@ == setting_name(privacy_setting),
            r.data == (EssSettingData {
                allowed: value,
                expiration,
                owner_reference,
                entity_reference,
                updated,
            }),
    {
        let data = EssSettingData::new(value, expiration, owner_reference, entity_reference, updated);
        let name = privacy_setting_name(&privacy_setting);
        EssSetting { name, data }
    }

    /// A setting without a name and with no field set.
    pub fn default() -> (r: EssSetting)
        ensures
            r.name@ == Seq::<char>::empty(),
            r.data == (EssSettingData {
                allowed: None,
                expiration: None,
                owner_reference: None,
                entity_reference: None,
                updated: None,
            }),
    {
        proof {
            reveal_strlit("");
        }
        EssSetting { name: "", data: EssSettingData::default() }
    }

    /// A copy of this setting.
    pub fn duplicate(&self) -> (r: EssSetting)
        ensures
            r == *self,
    {
        EssSetting { name: self.name, data: self.data.duplicate() }
    }

    /// The request body that sets this setting: a JSON object whose only member,
    /// under the setting's name, is the JSON object of the setting's data.
    pub fn to_body(&self) -> (r: String)
        ensures
            r@ == "{\""@ + self.name@ + "\": "@ + setting_data_json(self.data) + "}"@,
    {
        let a = concat("{\"", self.name);
        let b = concat(a.as_str(), "\": ");
        let c = concat(b.as_str(), self.data.to_json().as_str());
        concat(c.as_str(), "}")
    }
}

/// The location of the privacy settings of an account, or of the usage data
/// exclusions of a partner, at the privacy settings service.
pub struct EssUri {
    pub endpoint: String,
    pub partner_id: String,
    pub account_id: String,
    pub client_id: String,
    pub setting: Option<EssSetting>,
    pub entity: Option<String>,
    pub show_expired: Option<bool>,
}

/// The query pairs of a request to the privacy settings service: the client,
/// then the setting, entity and expiry filters that are present.
pub open spec fn query_pairs(
    client: Seq<char>,
    setting: Option<Seq<char>>,
    entity: Option<Seq<char>>,
    show_expired: Option<bool>,
) -> Seq<(Seq<char>, Seq<char>)> {
    let base = seq![("clientId"@, client)];
    let with_setting = match setting {
        Some(name) => base.push(("settingFilter"@, name)),
        None => base,
    };
    let with_entity = match entity {
        Some(e) => with_setting.push(("entityReferenceFilter"@, e)),
        None => with_setting,
    };
    match show_expired {
        Some(b) => with_entity.push(("showExpired"@, if b { "true"@ } else { "false"@ })),
        None => with_entity,
    }
}

/// The name of the setting that a location filters on, if any.
pub open spec fn filter_name(setting: Option<EssSetting>) -> Option<Seq<char>> {
    match setting {
        Some(s) => Some(s.name@),
        None => None,
    }
}

/// The query pairs of a location; the expiry filter only when `with_expired`.
pub open spec fn ess_query(u: EssUri, with_expired: bool) -> Seq<(Seq<char>, Seq<char>)> {
    query_pairs(
        u.client_id@,
        filter_name(u.setting),
        opt_view(u.entity),
        if with_expired { u.show_expired } else { None },
    )
}

/// The path of the privacy settings of an account.
pub open spec fn account_settings_path(partner: Seq<char>, account: Seq<char>) -> Seq<Seq<char>> {
    seq!["v1"@, "partners"@, partner, "accounts"@, account, "privacySettings"@]
}

/// The path of the privacy settings of an account.
pub open spec fn privacy_settings_path(u: EssUri) -> Seq<Seq<char>> {
    account_settings_path(u.partner_id@, u.account_id@)
}

/// The path of the usage data exclusions of a partner.
pub open spec fn exclusions_path(u: EssUri) -> Seq<Seq<char>> {
    seq!["v1"@, "partners"@, u.partner_id@, "privacySettings"@, "policy"@, "usageDataExclusions"@]
}

fn push_pair(pairs: &mut Vec<(String, String)>, key: &str, value: &str)
    ensures
        crate::urls::pair_views(final(pairs)@) == crate::urls::pair_views(old(pairs)@).push(
            (key@, value@),
        ),
        final(pairs)@.len() == old(pairs)@.len() + 1,
{
    let ghost old_pairs = pairs@;
    pairs.push((key.to_owned(), value.to_owned()));
    assert(crate::urls::pair_views(pairs@) =~= crate::urls::pair_views(old_pairs).push(
        (key@, value@),
    ));
}

fn push_segment(segments: &mut Vec<String>, s: &str)
    ensures
        crate::model::views(final(segments)@) == crate::model::views(old(segments)@).push(s@),
{
    let ghost old_s = segments@;
    segments.push(s.to_owned());
    assert(crate::model::views(segments@) =~= crate::model::views(old_s).push(s@));
}

impl EssUri {
    /// A location with the "ripple" client.
    pub fn new(
        endpoint: String,
        partner_id: String,
        account_id: String,
        setting: Option<EssSetting>,
        entity: Option<String>,
        show_expired: Option<bool>,
    ) -> (r: EssUri)
        ensures
            r.endpoint == endpoint,
            r.partner_id == partner_id,
            r.account_id == account_id,
            r.client_id@ == "ripple"@,
            r.setting == setting,
            r.entity == entity,
            r.show_expired == show_expired,
    {
        EssUri {
            endpoint,
            partner_id,
            account_id,
            client_id: "ripple".to_owned(),
            setting,
            entity,
            show_expired,
        }
    }

    fn query(&self, with_expired: bool) -> (r: Vec<(String, String)>)
        ensures
            crate::urls::pair_views(r@) == ess_query(*self, with_expired),
            r@.len() > 0,
    {
        let mut pairs: Vec<(String, String)> = Vec::new();
        push_pair(&mut pairs, "clientId", self.client_id.as_str());
        assert(crate::urls::pair_views(pairs@) =~= seq![("clientId"@, self.client_id@)]);
        match &self.setting {
            Some(s) => push_pair(&mut pairs, "settingFilter", s.name),
            None => {},
        }
        match &self.entity {
            Some(e) => push_pair(&mut pairs, "entityReferenceFilter", e.as_str()),
            None => {},
        }
        if with_expired {
            match self.show_expired {
                Some(b) => {
                    let value = if b {
                        "true"
                    } else {
                        "false"
                    };
                    push_pair(&mut pairs, "showExpired", value);
                },
                None => {},
            }
        }
        pairs
    }

    /// The URL of the privacy settings of the account, with the filters present.
    pub fn into_privacy_settings_url(&self) -> (r: Result<String, DpabError>)
        ensures
            match built_url(self.endpoint@, privacy_settings_path(*self), ess_query(*self, true)) {
                Some(url) => r matches Ok(s) && s@ == url,
                None => r == Err::<String, DpabError>(DpabError::ServiceError),
            },
    {
        let mut segments: Vec<String> = Vec::new();
        push_segment(&mut segments, "v1");
        push_segment(&mut segments, "partners");
        push_segment(&mut segments, self.partner_id.as_str());
        push_segment(&mut segments, "accounts");
        push_segment(&mut segments, self.account_id.as_str());
        push_segment(&mut segments, "privacySettings");
        assert(crate::model::views(segments@) =~= privacy_settings_path(*self));
        let pairs = self.query(true);
        match build_url(self.endpoint.as_str(), &segments, &pairs) {
            Some(url) => Ok(url),
            None => Err(DpabError::ServiceError),
        }
    }

    /// The URL of the usage data exclusions of the partner, with the filters present.
    pub fn into_usage_data_exclusion_url(&self) -> (r: Result<String, DpabError>)
        ensures
            match built_url(self.endpoint@, exclusions_path(*self), ess_query(*self, false)) {
                Some(url) => r matches Ok(s) && s@ == url,
                None => r == Err::<String, DpabError>(DpabError::ServiceError),
            },
    {
        let mut segments: Vec<String> = Vec::new();
        push_segment(&mut segments, "v1");
        push_segment(&mut segments, "partners");
        push_segment(&mut segments, self.partner_id.as_str());
        push_segment(&mut segments, "privacySettings");
        push_segment(&mut segments, "policy");
        push_segment(&mut segments, "usageDataExclusions");
        assert(crate::model::views(segments@) =~= exclusions_path(*self));
        let pairs = self.query(false);
        match build_url(self.endpoint.as_str(), &segments, &pairs) {
            Some(url) => Ok(url),
            None => Err(DpabError::ServiceError),
        }
    }
}


/// The settings of an account at the privacy settings service.
pub struct Settings {
    pub app_data_collection: Option<Vec<EssSetting>>,
    pub app_entitlement_collection: Option<Vec<EssSetting>>,
    pub continue_watching: Option<EssSetting>,
    pub unentitled_continue_watching: Option<EssSetting>,
    pub watch_history: Option<EssSetting>,
    pub product_analytics: Option<EssSetting>,
    pub personalization: Option<EssSetting>,
    pub unentitled_personalization: Option<EssSetting>,
    pub remote_diagnostics: Option<EssSetting>,
    pub primary_content_ad_targeting: Option<EssSetting>,
    pub primary_browse_ad_targeting: Option<EssSetting>,
    pub app_content_ad_targeting: Option<EssSetting>,
    pub acr: Option<EssSetting>,
    pub camera_analytics: Option<EssSetting>,
}

/// The answer of the privacy settings service to a request for the settings of an account.
pub struct EssGetResponseBody {
    pub partner_id: String,
    pub account_id: String,
    pub settings: Settings,
}

/// The position of the first setting about application `app_id`, or -1.
pub open spec fn app_setting_pos(list: Seq<EssSetting>, app_id: Seq<char>) -> int {
    if exists|i: int|
        0 <= i < list.len() && app_id_of(list[i].data) == Some(app_id) && forall|j: int|
            0 <= j < i ==> app_id_of(list[j].data) != Some(app_id) {
        choose|i: int|
            0 <= i < list.len() && app_id_of(list[i].data) == Some(app_id) && forall|j: int|
                0 <= j < i ==> app_id_of(list[j].data) != Some(app_id)
    } else {
        -1
    }
}

/// The setting about application `app_id` in an optional list of settings.
pub open spec fn app_setting(list: Option<Vec<EssSetting>>, app_id: Seq<char>) -> Option<EssSetting> {
    match list {
        Some(l) => if app_setting_pos(l@, app_id) >= 0 {
            Some(l@[app_setting_pos(l@, app_id)])
        } else {
            None
        },
        None => None,
    }
}

/// The setting `setting` among the settings of an account.
pub open spec fn setting_of(s: Settings, setting: PrivacySetting) -> Option<EssSetting> {
    match setting {
        PrivacySetting::AppDataCollection(app) => app_setting(s.app_data_collection, app@),
        PrivacySetting::AppEntitlementCollection(app) => app_setting(s.app_entitlement_collection, app@),
        PrivacySetting::ContinueWatching => s.continue_watching,
        PrivacySetting::UnentitledContinueWatching => s.unentitled_continue_watching,
        PrivacySetting::WatchHistory => s.watch_history,
        PrivacySetting::ProductAnalytics => s.product_analytics,
        PrivacySetting::Personalization => s.personalization,
        PrivacySetting::UnentitledPersonalization => s.unentitled_personalization,
        PrivacySetting::RemoteDiagnostics => s.remote_diagnostics,
        PrivacySetting::PrimaryContentAdTargeting => s.primary_content_ad_targeting,
        PrivacySetting::PrimaryBrowseAdTargeting => s.primary_browse_ad_targeting,
        PrivacySetting::AppContentAdTargeting => s.app_content_ad_targeting,
        PrivacySetting::Acr => s.acr,
        PrivacySetting::CameraAnalytics => s.camera_analytics,
    }
}

fn copy_setting(o: &Option<EssSetting>) -> (r: Option<EssSetting>)
    ensures
        r == *o,
{
    match o {
        Some(s) => Some(s.duplicate()),
        None => None,
    }
}

fn find_app_setting(list: &Option<Vec<EssSetting>>, app_id: &String) -> (r: Option<EssSetting>)
    ensures
        r == app_setting(*list, app_id@),
{
    match list {
        None => None,
        Some(l) => {
            let ghost v = l@;
            let mut i: usize = 0;
            while i < l.len()
                invariant
                    i <= v.len(),
                    v == l@,
                    *list == Some(*l),
                    forall|j: int| 0 <= j < i ==> app_id_of(v[j].data) != Some(app_id@),
                decreases v.len() - i,
            {
                match l[i].data.as_app_id() {
                    Some(id) => {
                        if id == *app_id {
                            let ghost p = app_setting_pos(v, app_id@);
                            assert(app_id_of(v[i as int].data) == Some(app_id@));
                            assert(exists|k: int|
                                0 <= k < v.len() && app_id_of(v[k].data) == Some(app_id@) && forall|j: int|
                                    0 <= j < k ==> app_id_of(v[j].data) != Some(app_id@));
                            assert(p == i) by {
                                if p < i {
                                    assert(app_id_of(v[p].data) != Some(app_id@));
                                }
                                if p > i {
                                    assert(app_id_of(v[i as int].data) != Some(app_id@));
                                }
                            }
                            return Some(l[i].duplicate());
                        }
                    },
                    None => {},
                }
                i = i + 1;
            }
            None
        },
    }
}

/// The value of an application's setting.
pub struct AppSetting {
    pub app_id: Option<String>,
    pub value: Option<bool>,
}

/// The privacy settings of an account as the platform reports them.
pub struct PrivacySettings {
    pub app_data_collection: Option<Vec<AppSetting>>,
    pub app_entitlement_collection: Option<Vec<AppSetting>>,
    pub continue_watching: Option<bool>,
    pub unentitled_continue_watching: Option<bool>,
    pub watch_history: Option<bool>,
    pub product_analytics: Option<bool>,
    pub personalization: Option<bool>,
    pub unentitled_personalization: Option<bool>,
    pub remote_diagnostics: Option<bool>,
    pub primary_content_ad_targeting: Option<bool>,
    pub primary_browse_ad_targeting: Option<bool>,
    pub app_content_ad_targeting: Option<bool>,
    pub acr: Option<bool>,
    pub camera_analytics: Option<bool>,
}

/// The value of an application's setting: the application and whether it is allowed.
pub open spec fn app_setting_view(a: AppSetting) -> (Option<Seq<char>>, Option<bool>) {
    (opt_view(a.app_id), a.value)
}

/// The application values reported for an optional list of settings: none when
/// the list is missing or empty, else the application and value of each.
pub open spec fn allowed_apps(list: Option<Vec<EssSetting>>) -> Option<Seq<(Option<Seq<char>>, Option<bool>)>> {
    match list {
        Some(l) => if l@.len() == 0 {
            None
        } else {
            Some(l@.map_values(|s: EssSetting| (app_id_of(s.data), s.data.allowed)))
        },
        None => None,
    }
}

/// The reported application values of an optional list.
pub open spec fn app_settings_view(o: Option<Vec<AppSetting>>) -> Option<Seq<(Option<Seq<char>>, Option<bool>)>> {
    match o {
        Some(v) => Some(v@.map_values(|a: AppSetting| app_setting_view(a))),
        None => None,
    }
}

/// Whether a setting is allowed, if the setting and its value are present.
pub open spec fn allowed_of(o: Option<EssSetting>) -> Option<bool> {
    match o {
        Some(s) => s.data.allowed,
        None => None,
    }
}

/// Whether `p` reports the settings `s`.
pub open spec fn reports(p: PrivacySettings, s: Settings) -> bool {
    &&& app_settings_view(p.app_data_collection) == allowed_apps(s.app_data_collection)
    &&& app_settings_view(p.app_entitlement_collection) == allowed_apps(s.app_entitlement_collection)
    &&& p.continue_watching == allowed_of(s.continue_watching)
    &&& p.unentitled_continue_watching == allowed_of(s.unentitled_continue_watching)
    &&& p.watch_history == allowed_of(s.watch_history)
    &&& p.product_analytics == allowed_of(s.product_analytics)
    &&& p.personalization == allowed_of(s.personalization)
    &&& p.unentitled_personalization == allowed_of(s.unentitled_personalization)
    &&& p.remote_diagnostics == allowed_of(s.remote_diagnostics)
    &&& p.primary_content_ad_targeting == allowed_of(s.primary_content_ad_targeting)
    &&& p.primary_browse_ad_targeting == allowed_of(s.primary_browse_ad_targeting)
    &&& p.app_content_ad_targeting == allowed_of(s.app_content_ad_targeting)
    &&& p.acr == allowed_of(s.acr)
    &&& p.camera_analytics == allowed_of(s.camera_analytics)
}

fn get_allowed(setting: &Option<EssSetting>) -> (r: Option<bool>)
    ensures
        r == allowed_of(*setting),
{
    match setting {
        Some(s) => s.data.allowed,
        None => None,
    }
}

fn get_allowed_apps(settings: &Option<Vec<EssSetting>>) -> (r: Option<Vec<AppSetting>>)
    ensures
        app_settings_view(r) == allowed_apps(*settings),
{
    match settings {
        None => None,
        Some(l) => {
            let mut apps: Vec<AppSetting> = Vec::new();
            let mut i: usize = 0;
            while i < l.len()
                invariant
                    i <= l@.len(),
                    apps@.len() == i,
                    apps@.map_values(|a: AppSetting| app_setting_view(a)) =~= l@.take(
                        i as int,
                    ).map_values(|s: EssSetting| (app_id_of(s.data), s.data.allowed)),
                decreases l@.len() - i,
            {
                let ghost before = apps@;
                let a = AppSetting { app_id: l[i].data.as_app_id(), value: l[i].data.allowed };
                apps.push(a);
                proof {
                    let f = |a: AppSetting| app_setting_view(a);
                    let g = |s: EssSetting| (app_id_of(s.data), s.data.allowed);
                    assert(before.map_values(f) =~= l@.take(i as int).map_values(g));
                    assert forall|k: int| 0 <= k < i + 1 implies #[trigger] apps@.map_values(f)[k]
                        == l@.take(i + 1).map_values(g)[k] by {
                        if k < i {
                            assert(apps@[k] == before[k]);
                            assert(before.map_values(f)[k] == l@.take(i as int).map_values(g)[k]);
                        }
                    }
                    assert(apps@.map_values(f) =~= l@.take(i + 1).map_values(g));
                }
                i = i + 1;
            }
            assert(l@.take(l@.len() as int) =~= l@);
            if apps.len() == 0 {
                None
            } else {
                Some(apps)
            }
        },
    }
}

impl EssGetResponseBody {
    /// The setting `setting` of the account, if it has one.
    pub fn get_setting(&self, setting: PrivacySetting) -> (r: Option<EssSetting>)
        ensures
            r == setting_of(self.settings, setting),
    {
        let s = &self.settings;
        match setting {
            PrivacySetting::AppDataCollection(app_id) => find_app_setting(&s.app_data_collection, &app_id),
            PrivacySetting::AppEntitlementCollection(app_id) => find_app_setting(
                &s.app_entitlement_collection,
                &app_id,
            ),
            PrivacySetting::ContinueWatching => copy_setting(&s.continue_watching),
            PrivacySetting::UnentitledContinueWatching => copy_setting(&s.unentitled_continue_watching),
            PrivacySetting::WatchHistory => copy_setting(&s.watch_history),
            PrivacySetting::ProductAnalytics => copy_setting(&s.product_analytics),
            PrivacySetting::Personalization => copy_setting(&s.personalization),
            PrivacySetting::UnentitledPersonalization => copy_setting(&s.unentitled_personalization),
            PrivacySetting::RemoteDiagnostics => copy_setting(&s.remote_diagnostics),
            PrivacySetting::PrimaryContentAdTargeting => copy_setting(&s.primary_content_ad_targeting),
            PrivacySetting::PrimaryBrowseAdTargeting => copy_setting(&s.primary_browse_ad_targeting),
            PrivacySetting::AppContentAdTargeting => copy_setting(&s.app_content_ad_targeting),
            PrivacySetting::Acr => copy_setting(&s.acr),
            PrivacySetting::CameraAnalytics => copy_setting(&s.camera_analytics),
        }
    }

    /// The privacy settings of the account as the platform reports them.
    pub fn get_settings(&self) -> (r: PrivacySettings)
        ensures
            reports(r, self.settings),
    {
        let s = &self.settings;
        PrivacySettings {
            app_data_collection: get_allowed_apps(&s.app_data_collection),
            app_entitlement_collection: get_allowed_apps(&s.app_entitlement_collection),
            continue_watching: get_allowed(&s.continue_watching),
            unentitled_continue_watching: get_allowed(&s.unentitled_continue_watching),
            watch_history: get_allowed(&s.watch_history),
            product_analytics: get_allowed(&s.product_analytics),
            personalization: get_allowed(&s.personalization),
            unentitled_personalization: get_allowed(&s.unentitled_personalization),
            remote_diagnostics: get_allowed(&s.remote_diagnostics),
            primary_content_ad_targeting: get_allowed(&s.primary_content_ad_targeting),
            primary_browse_ad_targeting: get_allowed(&s.primary_browse_ad_targeting),
            app_content_ad_targeting: get_allowed(&s.app_content_ad_targeting),
            acr: get_allowed(&s.acr),
            camera_analytics: get_allowed(&s.camera_analytics),
        }
    }
}

/// The privacy settings that a synchronised subscriber gets: the reported
/// settings without the application collections, which belong to user grants.
pub fn privacy_settings_for_sync(settings: PrivacySettings) -> (r: PrivacySettings)
    ensures
        r == (PrivacySettings {
            app_data_collection: None,
            app_entitlement_collection: None,
            ..settings
        }),
{
    PrivacySettings { app_data_collection: None, app_entitlement_collection: None, ..settings }
}


/// Each flag that the platform is told is whether the account's setting of
/// the same name is allowed: the value that reading that one setting
/// (`get_setting`) gives.
pub proof fn law_reported_flags_are_settings(p: PrivacySettings, s: Settings)
    requires
        reports(p, s),
    ensures
        p.continue_watching == allowed_of(setting_of(s, PrivacySetting::ContinueWatching)),
        p.unentitled_continue_watching == allowed_of(setting_of(s, PrivacySetting::UnentitledContinueWatching)),
        p.watch_history == allowed_of(setting_of(s, PrivacySetting::WatchHistory)),
        p.product_analytics == allowed_of(setting_of(s, PrivacySetting::ProductAnalytics)),
        p.personalization == allowed_of(setting_of(s, PrivacySetting::Personalization)),
        p.unentitled_personalization == allowed_of(setting_of(s, PrivacySetting::UnentitledPersonalization)),
        p.remote_diagnostics == allowed_of(setting_of(s, PrivacySetting::RemoteDiagnostics)),
        p.primary_content_ad_targeting == allowed_of(setting_of(s, PrivacySetting::PrimaryContentAdTargeting)),
        p.primary_browse_ad_targeting == allowed_of(setting_of(s, PrivacySetting::PrimaryBrowseAdTargeting)),
        p.app_content_ad_targeting == allowed_of(setting_of(s, PrivacySetting::AppContentAdTargeting)),
        p.acr == allowed_of(setting_of(s, PrivacySetting::Acr)),
        p.camera_analytics == allowed_of(setting_of(s, PrivacySetting::CameraAnalytics)),
{
}
} // verus!
