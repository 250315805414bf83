use vstd::prelude::*;

use crate::model::{
    copy_mapping, copy_strings, mapping_views, views, DistributorSession, DistributorSessionView,
    SyncAndMonitorModule, UserGrantMapping, UserGrantMappingView,
};

verus! {

/// What a subscriber to cloud changes asked to be kept informed of.
///
/// Two settings are the same listener when they watch the same monitor topic
/// for the same list of properties; the other fields do not take part in that.
/// `callback_id` names the channel on which the subscriber is answered.
pub struct SyncSettings {
    pub module: SyncAndMonitorModule,
    pub dist_session: DistributorSession,
    pub cloud_service_url: String,
    pub cloud_sync_ttl: u32,
    pub cloud_monitor_topic: String,
    pub settings: Vec<String>,
    pub callback_id: u64,
    pub user_grants_mapping: Vec<UserGrantMapping>,
}

/// The values of a [`SyncSettings`].
pub struct SyncSettingsView {
    pub module: SyncAndMonitorModule,
    pub dist_session: DistributorSessionView,
    pub cloud_service_url: Seq<char>,
    pub cloud_sync_ttl: u32,
    pub cloud_monitor_topic: Seq<char>,
    pub settings: Seq<Seq<char>>,
    pub callback_id: u64,
    pub user_grants_mapping: Seq<UserGrantMappingView>,
}

impl View for SyncSettings {
    type V = SyncSettingsView;

    open spec fn view(&self) -> SyncSettingsView {
        SyncSettingsView {
            module: self.module,
            dist_session: self.dist_session@,
            cloud_service_url: self.cloud_service_url@,
            cloud_sync_ttl: self.cloud_sync_ttl,
            cloud_monitor_topic: self.cloud_monitor_topic@,
            settings: views(self.settings@),
            callback_id: self.callback_id,
            user_grants_mapping: mapping_views(self.user_grants_mapping@),
        }
    }
}

/// Whether two listeners are the same: same topic and same list of properties.
pub open spec fn same_listener(a: SyncSettingsView, b: SyncSettingsView) -> bool {
    a.cloud_monitor_topic == b.cloud_monitor_topic && a.settings == b.settings
}

/// The views of a sequence of settings.
pub open spec fn settings_views(v: Seq<SyncSettings>) -> Seq<SyncSettingsView> {
    v.map_values(|s: SyncSettings| s@)
}

impl SyncSettings {
    /// A copy of these settings.
    pub fn duplicate(&self) -> (r: SyncSettings)
        ensures
            r@ == self@,
    {
        SyncSettings {
            module: self.module,
            dist_session: self.dist_session.duplicate(),
            cloud_service_url: self.cloud_service_url.clone(),
            cloud_sync_ttl: self.cloud_sync_ttl,
            cloud_monitor_topic: self.cloud_monitor_topic.clone(),
            settings: copy_strings(&self.settings),
            callback_id: self.callback_id,
            user_grants_mapping: copy_mapping(&self.user_grants_mapping),
        }
    }

    /// Whether `self` and `other` are the same listener.
    pub fn eq(&self, other: &SyncSettings) -> (r: bool)
        ensures
            r == same_listener(self@, other@),
    {
        self.cloud_monitor_topic == other.cloud_monitor_topic && crate::model::strings_equal(
            &self.settings,
            &other.settings,
        )
    }
}

} // verus!
