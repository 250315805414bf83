use vstd::prelude::*;

use crate::config::{event_name_alias, event_path, MetricsSchemas};

verus! {

/// A named parameter of a metric.
pub struct Param {
    pub name: String,
    pub value: String,
}

/// Who caused an action: the user or the application.
#[derive(Clone, Copy, Debug, PartialEq, Eq, Structural)]
pub enum CategoryType {
    User,
    App,
}

/// The category of an action as the collector names it.
#[derive(Clone, Copy, Debug, PartialEq, Eq, Structural)]
pub enum ActionCategory {
    User,
    App,
}

impl ActionCategory {
    /// The collector's category for an action category.
    pub fn from(category_type: CategoryType) -> (r: ActionCategory)
        ensures
            r == action_category(category_type),
    {
        match category_type {
            CategoryType::User => ActionCategory::User,
            CategoryType::App => ActionCategory::App,
        }
    }
}

/// The collector's category for an action category.
pub open spec fn action_category(c: CategoryType) -> ActionCategory {
    match c {
        CategoryType::User => ActionCategory::User,
        CategoryType::App => ActionCategory::App,
    }
}

/// The kind of an application error.
#[derive(Clone, Copy, Debug, PartialEq, Eq, Structural)]
pub enum ErrorType {
    Network,
    Media,
    Restriction,
    Entitlement,
    Other,
}

/// The lifecycle states of an application.
#[derive(Clone, Copy, Debug, PartialEq, Eq, Structural)]
pub enum AppLifecycleState {
    Initializing,
    Inactive,
    Foreground,
    Background,
    Unloading,
    Suspended,
}

/// The data tags that the governance of an application applies to its metrics.
pub struct AppGovernanceState {
    pub data_tags_to_apply: Vec<String>,
}

/// The application that a metric comes from.
pub struct AppContext {
    pub app_id: String,
    pub app_version: String,
    pub partner_id: String,
    pub app_session_id: String,
    pub app_user_session_id: Option<String>,
    pub durable_app_id: String,
    pub governance_state: Option<AppGovernanceState>,
}

/// The application became ready.
pub struct Ready {
    pub context: AppContext,
    pub ttmu_ms: u32,
}

/// A metric that carries only its context (sign in, sign out).
pub struct ContextOnly {
    pub context: AppContext,
}

/// Content started or stopped.
pub struct ContentEvent {
    pub context: AppContext,
    pub entity_id: Option<String>,
}

/// A page was viewed.
pub struct Page {
    pub context: AppContext,
    pub page_id: String,
}

/// The user or the application acted.
pub struct Action {
    pub context: AppContext,
    pub category: CategoryType,
    pub parameters: Vec<Param>,
    pub _type: String,
}

/// The application reported an error.
pub struct AppError {
    pub context: AppContext,
    pub app_session_id: Option<String>,
    pub app_user_session_id: Option<String>,
    pub durable_app_id: String,
    pub third_party_error: bool,
    pub error_type: ErrorType,
    pub code: String,
    pub description: String,
    pub visible: bool,
    pub parameters: Option<Vec<Param>>,
}

/// A media event about one piece of content.
pub struct MediaEntityEvent {
    pub context: AppContext,
    pub entity_id: String,
}

/// A media event with a playback position, given as a percentage and in seconds
/// (each present when the position was reported that way).
pub struct MediaPositionEvent {
    pub context: AppContext,
    pub entity_id: String,
    pub position_pct: Option<i32>,
    pub position_seconds: Option<i32>,
}

/// The playback rate changed.
pub struct MediaRateChanged {
    pub context: AppContext,
    pub entity_id: String,
    pub rate: u32,
}

/// The rendition of the content changed.
pub struct MediaRenditionChanged {
    pub context: AppContext,
    pub entity_id: String,
    pub bitrate: u32,
    pub width: u32,
    pub height: u32,
    pub profile: Option<String>,
}

/// The application changed lifecycle state.
pub struct AppStateChange {
    pub context: AppContext,
    pub previous_state: Option<AppLifecycleState>,
    pub new_state: AppLifecycleState,
}

/// A behavioral metric reported by a Firebolt application.
pub enum AppBehavioralMetric {
    Ready(Ready),
    SignIn(ContextOnly),
    SignOut(ContextOnly),
    StartContent(ContentEvent),
    StopContent(ContentEvent),
    Page(Page),
    Action(Action),
    Error(AppError),
    MediaLoadStart(MediaEntityEvent),
    MediaPlay(MediaEntityEvent),
    MediaPlaying(MediaEntityEvent),
    MediaPause(MediaEntityEvent),
    MediaWaiting(MediaEntityEvent),
    MediaProgress(MediaPositionEvent),
    MediaSeeking(MediaPositionEvent),
    MediaSeeked(MediaPositionEvent),
    MediaRateChanged(MediaRateChanged),
    MediaRenditionChanged(MediaRenditionChanged),
    MediaEnded(MediaEntityEvent),
    AppStateChange(AppStateChange),
}

/// The media events that the collector knows.
#[derive(Clone, Copy, Debug, PartialEq, Eq, Structural)]
pub enum InAppMediaEventType {
    MediaLoadStart,
    MediaPlay,
    MediaPlaying,
    MediaPause,
    MediaWaiting,
    MediaProgress,
    MediaSeeking,
    MediaSeeked,
    MediaRateChange,
    MediaRenditionChange,
    MediaEnded,
}

/// A media event as the collector takes it.
pub struct InAppMedia {
    pub media_event_name: InAppMediaEventType,
    pub src_page_id: String,
    pub app_session_id: String,
    pub app_user_session_id: String,
    pub durable_app_id: String,
    pub media_pos_pct: Option<i32>,
    pub media_pos_seconds: Option<i32>,
    pub playback_rate: Option<i32>,
    pub playback_bitrate: Option<i32>,
    pub playback_width: Option<i32>,
    pub playback_height: Option<i32>,
    pub playback_profile: Option<String>,
}

/// Content started, as the collector takes it.
pub struct InAppContentStart {
    pub src_entity_id: Option<String>,
    pub app_session_id: String,
    pub app_user_session_id: String,
    pub durable_app_id: String,
}

/// Content stopped, as the collector takes it.
pub struct InAppContentStop {
    pub src_entity_id: Option<String>,
    pub app_session_id: String,
    pub app_user_session_id: String,
    pub durable_app_id: String,
}

/// A page view, as the collector takes it.
pub struct InAppPageView {
    pub src_page_id: String,
    pub app_session_id: String,
    pub app_user_session_id: String,
    pub durable_app_id: String,
}

/// Any other action, as the collector takes it.
pub struct InAppOtherAction {
    pub category: ActionCategory,
    pub action_type: String,
    pub parameters: Option<Vec<Param>>,
    pub app_session_id: String,
    pub app_user_session_id: String,
    pub durable_app_id: String,
}

/// A lifecycle state change, as the collector takes it.
pub struct AppLifecycleStateChange {
    pub app_session_id: String,
    pub app_user_session_id: Option<String>,
    pub durable_app_id: String,
    pub previous_life_cycle_state: Option<AppLifecycleState>,
    pub new_life_cycle_state: AppLifecycleState,
}

/// An application that became ready, as the collector takes it.
pub struct AppReady {
    pub app_session_id: String,
    pub app_user_session_id: String,
    pub durable_app_id: String,
    pub is_cold_launch: bool,
}

/// An application error, as the collector takes it.
pub struct InAppError {
    pub context: AppContext,
    pub app_session_id: Option<String>,
    pub app_user_session_id: Option<String>,
    pub durable_app_id: String,
    pub third_party_error: bool,
    pub error_type: ErrorType,
    pub code: String,
    pub description: String,
    pub visible: bool,
    pub parameters: Option<Vec<Param>>,
}

/// A Badger metric with a segment.
pub struct BadgerMetric {
    pub context: AppContext,
    pub segment: String,
    pub args: Vec<Param>,
}

/// A Badger application action.
pub struct BadgerAppAction {
    pub context: AppContext,
    pub action: String,
    pub args: Vec<Param>,
}

/// A Badger error (of the application or of the user).
pub struct BadgerError {
    pub context: AppContext,
    pub message: String,
    pub visible: bool,
    pub code: u16,
    pub args: Vec<Param>,
}

/// A Badger metric that carries only its arguments.
pub struct BadgerArgs {
    pub context: AppContext,
    pub args: Vec<Param>,
}

/// A Badger page view.
pub struct BadgerPageView {
    pub context: AppContext,
    pub page: String,
    pub args: Vec<Param>,
}

/// A metric reported by a Badger application.
pub enum BadgerMetrics {
    Metric(BadgerMetric),
    AppAction(BadgerAppAction),
    Error(BadgerError),
    LaunchCompleted(BadgerArgs),
    DismissLoadingScreen(BadgerArgs),
    PageView(BadgerPageView),
    UserAction(BadgerArgs),
    UserError(BadgerError),
}

/// A metric in the form that the collector takes.
pub enum AXPMetric {
    InAppMedia(InAppMedia),
    InAppContentStart(InAppContentStart),
    InAppContentStop(InAppContentStop),
    InAppPageView(InAppPageView),
    InAppOtherAction(InAppOtherAction),
    AppLifecycleStateChange(AppLifecycleStateChange),
    InAppError(InAppError),
    AppReady(AppReady),
    BadgerAppAction(BadgerAppAction),
    BadgerMetric(BadgerMetric),
    BadgerError(BadgerError),
    BadgerLaunchCompleted(BadgerArgs),
    BadgerDismissLoadingScreen(BadgerArgs),
    BadgerPageView(BadgerPageView),
    BadgerUserAction(BadgerArgs),
    BadgerUserError(BadgerError),
}

/// The text that the collector gets for an optional string: the string, or empty.
pub open spec fn pabs_text(o: Option<String>) -> Seq<char> {
    match o {
        Some(s) => s@,
        None => Seq::empty(),
    }
}

/// The text for an optional string: the string, or the empty string.
pub fn option_string_to_pabs(the_string: Option<String>) -> (r: String)
    ensures
        r@ == pabs_text(the_string),
{
    match the_string {
        Some(s) => s,
        None => String::new(),
    }
}

/// The session fields of a collector metric come from the context.
pub open spec fn ids_from(
    ctx: AppContext,
    app_session_id: String,
    app_user_session_id: String,
    durable_app_id: String,
) -> bool {
    &&& app_session_id == ctx.app_session_id
    &&& app_user_session_id@ == pabs_text(ctx.app_user_session_id)
    &&& durable_app_id == ctx.durable_app_id
}

/// A collector media event made from an event of kind `kind`.
pub open spec fn media_from(
    x: InAppMedia,
    kind: InAppMediaEventType,
    ctx: AppContext,
    entity_id: String,
    pct: Option<i32>,
    seconds: Option<i32>,
    rate: Option<i32>,
    bitrate: Option<i32>,
    width: Option<i32>,
    height: Option<i32>,
    profile: Option<String>,
) -> bool {
    &&& x.media_event_name == kind
    &&& x.src_page_id == entity_id
    &&& ids_from(ctx, x.app_session_id, x.app_user_session_id, x.durable_app_id)
    &&& x.media_pos_pct == pct
    &&& x.media_pos_seconds == seconds
    &&& x.playback_rate == rate
    &&& x.playback_bitrate == bitrate
    &&& x.playback_width == width
    &&& x.playback_height == height
    &&& x.playback_profile == profile
}

/// A collector "other action" for a sign in or a sign out.
pub open spec fn sign_action_from(x: InAppOtherAction, ctx: AppContext, kind: Seq<char>) -> bool {
    &&& x.category == ActionCategory::User
    &&& x.action_type@ == kind
    &&& x.parameters is None
    &&& ids_from(ctx, x.app_session_id, x.app_user_session_id, x.durable_app_id)
}

/// Whether `r` is the collector form of the Firebolt metric `m`.
pub open spec fn is_pabs_of(m: AppBehavioralMetric, r: AXPMetric) -> bool {
    match m {
        AppBehavioralMetric::Ready(a) => r == AXPMetric::AppLifecycleStateChange(
            AppLifecycleStateChange {
                app_session_id: a.context.app_session_id,
                app_user_session_id: a.context.app_user_session_id,
                durable_app_id: a.context.durable_app_id,
                previous_life_cycle_state: None,
                new_life_cycle_state: AppLifecycleState::Foreground,
            },
        ),
        AppBehavioralMetric::AppStateChange(a) => r == AXPMetric::AppLifecycleStateChange(
            AppLifecycleStateChange {
                app_session_id: a.context.app_session_id,
                app_user_session_id: a.context.app_user_session_id,
                durable_app_id: a.context.durable_app_id,
                previous_life_cycle_state: a.previous_state,
                new_life_cycle_state: a.new_state,
            },
        ),
        AppBehavioralMetric::Error(a) => r == AXPMetric::InAppError(
            InAppError {
                context: a.context,
                app_session_id: a.app_session_id,
                app_user_session_id: a.app_user_session_id,
                durable_app_id: a.durable_app_id,
                third_party_error: a.third_party_error,
                error_type: a.error_type,
                code: a.code,
                description: a.description,
                visible: a.visible,
                parameters: a.parameters,
            },
        ),
        AppBehavioralMetric::SignIn(a) => r matches AXPMetric::InAppOtherAction(x)
            && sign_action_from(x, a.context, "sign_in"@),
        AppBehavioralMetric::SignOut(a) => r matches AXPMetric::InAppOtherAction(x)
            && sign_action_from(x, a.context, "sign_out"@),
        AppBehavioralMetric::StartContent(a) => r matches AXPMetric::InAppContentStart(x)
            && x.src_entity_id == a.entity_id && ids_from(
            a.context,
            x.app_session_id,
            x.app_user_session_id,
            x.durable_app_id,
        ),
        AppBehavioralMetric::StopContent(a) => r matches AXPMetric::InAppContentStop(x)
            && x.src_entity_id == a.entity_id && ids_from(
            a.context,
            x.app_session_id,
            x.app_user_session_id,
            x.durable_app_id,
        ),
        AppBehavioralMetric::Page(a) => r matches AXPMetric::InAppPageView(x) && x.src_page_id
            == a.page_id && ids_from(
            a.context,
            x.app_session_id,
            x.app_user_session_id,
            x.durable_app_id,
        ),
        AppBehavioralMetric::Action(a) => r matches AXPMetric::InAppOtherAction(x) && x.category
            == action_category(a.category) && x.action_type == a._type && x.parameters == Some(
            a.parameters,
        ) && ids_from(a.context, x.app_session_id, x.app_user_session_id, x.durable_app_id),
        AppBehavioralMetric::MediaLoadStart(a) => r matches AXPMetric::InAppMedia(x) && media_from(
            x,
            InAppMediaEventType::MediaLoadStart,
            a.context,
            a.entity_id,
            None,
            None,
            None,
            None,
            None,
            None,
            None,
        ),
        AppBehavioralMetric::MediaPlay(a) => r matches AXPMetric::InAppMedia(x) && media_from(
            x,
            InAppMediaEventType::MediaPlay,
            a.context,
            a.entity_id,
            None,
            None,
            None,
            None,
            None,
            None,
            None,
        ),
        AppBehavioralMetric::MediaPlaying(a) => r matches AXPMetric::InAppMedia(x) && media_from(
            x,
            InAppMediaEventType::MediaPlaying,
            a.context,
            a.entity_id,
            None,
            None,
            None,
            None,
            None,
            None,
            None,
        ),
        // a pause is reported under the "playing" event name
        AppBehavioralMetric::MediaPause(a) => r matches AXPMetric::InAppMedia(x) && media_from(
            x,
            InAppMediaEventType::MediaPlaying,
            a.context,
            a.entity_id,
            None,
            None,
            None,
            None,
            None,
            None,
            None,
        ),
        AppBehavioralMetric::MediaWaiting(a) => r matches AXPMetric::InAppMedia(x) && media_from(
            x,
            InAppMediaEventType::MediaWaiting,
            a.context,
            a.entity_id,
            None,
            None,
            None,
            None,
            None,
            None,
            None,
        ),
        AppBehavioralMetric::MediaProgress(a) => r matches AXPMetric::InAppMedia(x) && media_from(
            x,
            InAppMediaEventType::MediaProgress,
            a.context,
            a.entity_id,
            a.position_pct,
            a.position_seconds,
            None,
            None,
            None,
            None,
            None,
        ),
        AppBehavioralMetric::MediaSeeking(a) => r matches AXPMetric::InAppMedia(x) && media_from(
            x,
            InAppMediaEventType::MediaSeeking,
            a.context,
            a.entity_id,
            a.position_pct,
            a.position_seconds,
            None,
            None,
            None,
            None,
            None,
        ),
        AppBehavioralMetric::MediaSeeked(a) => r matches AXPMetric::InAppMedia(x) && media_from(
            x,
            InAppMediaEventType::MediaSeeked,
            a.context,
            a.entity_id,
            a.position_pct,
            a.position_seconds,
            None,
            None,
            None,
            None,
            None,
        ),
        AppBehavioralMetric::MediaRateChanged(a) => r matches AXPMetric::InAppMedia(x) && media_from(
            x,
            InAppMediaEventType::MediaRateChange,
            a.context,
            a.entity_id,
            None,
            None,
            Some(a.rate as i32),
            None,
            None,
            None,
            None,
        ),
        AppBehavioralMetric::MediaRenditionChanged(a) => r matches AXPMetric::InAppMedia(x)
            && media_from(
            x,
            InAppMediaEventType::MediaRenditionChange,
            a.context,
            a.entity_id,
            None,
            None,
            None,
            Some(a.bitrate as i32),
            Some(a.width as i32),
            Some(a.height as i32),
            a.profile,
        ),
        AppBehavioralMetric::MediaEnded(a) => r matches AXPMetric::InAppMedia(x) && media_from(
            x,
            InAppMediaEventType::MediaEnded,
            a.context,
            a.entity_id,
            None,
            None,
            None,
            None,
            None,
            None,
            None,
        ),
    }
}

/// The numbers of a metric fit the collector's 32-bit signed fields.
pub open spec fn fits_collector(m: AppBehavioralMetric) -> bool {
    match m {
        AppBehavioralMetric::MediaRateChanged(a) => a.rate <= i32::MAX,
        AppBehavioralMetric::MediaRenditionChanged(a) => a.bitrate <= i32::MAX && a.width
            <= i32::MAX && a.height <= i32::MAX,
        _ => true,
    }
}

fn media(
    kind: InAppMediaEventType,
    context: AppContext,
    entity_id: String,
    pct: Option<i32>,
    seconds: Option<i32>,
    rate: Option<i32>,
    bitrate: Option<i32>,
    width: Option<i32>,
    height: Option<i32>,
    profile: Option<String>,
) -> (r: InAppMedia)
    ensures
        media_from(r, kind, context, entity_id, pct, seconds, rate, bitrate, width, height, profile),
{
    InAppMedia {
        media_event_name: kind,
        src_page_id: entity_id,
        app_session_id: context.app_session_id,
        app_user_session_id: option_string_to_pabs(context.app_user_session_id),
        durable_app_id: context.durable_app_id,
        media_pos_pct: pct,
        media_pos_seconds: seconds,
        playback_rate: rate,
        playback_bitrate: bitrate,
        playback_width: width,
        playback_height: height,
        playback_profile: profile,
    }
}

fn sign_action(context: AppContext, kind: &str) -> (r: InAppOtherAction)
    ensures
        sign_action_from(r, context, kind@),
{
    InAppOtherAction {
        category: ActionCategory::User,
        action_type: kind.to_owned(),
        parameters: None,
        app_session_id: context.app_session_id,
        app_user_session_id: option_string_to_pabs(context.app_user_session_id),
        durable_app_id: context.durable_app_id,
    }
}

/// The collector form of a Firebolt behavioral metric.
pub fn fb_2_pabs(firebolt_metric: AppBehavioralMetric) -> (r: AXPMetric)
    requires
        fits_collector(firebolt_metric),
    ensures
        is_pabs_of(firebolt_metric, r),
{
    match firebolt_metric {
        AppBehavioralMetric::Ready(a) => AXPMetric::AppLifecycleStateChange(
            AppLifecycleStateChange {
                app_session_id: a.context.app_session_id,
                app_user_session_id: a.context.app_user_session_id,
                durable_app_id: a.context.durable_app_id,
                previous_life_cycle_state: None,
                new_life_cycle_state: AppLifecycleState::Foreground,
            },
        ),
        AppBehavioralMetric::AppStateChange(a) => AXPMetric::AppLifecycleStateChange(
            AppLifecycleStateChange {
                app_session_id: a.context.app_session_id,
                app_user_session_id: a.context.app_user_session_id,
                durable_app_id: a.context.durable_app_id,
                previous_life_cycle_state: a.previous_state,
                new_life_cycle_state: a.new_state,
            },
        ),
        AppBehavioralMetric::Error(a) => AXPMetric::InAppError(
            InAppError {
                context: a.context,
                app_session_id: a.app_session_id,
                app_user_session_id: a.app_user_session_id,
                durable_app_id: a.durable_app_id,
                third_party_error: a.third_party_error,
                error_type: a.error_type,
                code: a.code,
                description: a.description,
                visible: a.visible,
                parameters: a.parameters,
            },
        ),
        AppBehavioralMetric::SignIn(a) => AXPMetric::InAppOtherAction(
            sign_action(a.context, "sign_in"),
        ),
        AppBehavioralMetric::SignOut(a) => AXPMetric::InAppOtherAction(
            sign_action(a.context, "sign_out"),
        ),
        AppBehavioralMetric::StartContent(a) => AXPMetric::InAppContentStart(
            InAppContentStart {
                src_entity_id: a.entity_id,
                app_session_id: a.context.app_session_id,
                app_user_session_id: option_string_to_pabs(a.context.app_user_session_id),
                durable_app_id: a.context.durable_app_id,
            },
        ),
        AppBehavioralMetric::StopContent(a) => AXPMetric::InAppContentStop(
            InAppContentStop {
                src_entity_id: a.entity_id,
                app_session_id: a.context.app_session_id,
                app_user_session_id: option_string_to_pabs(a.context.app_user_session_id),
                durable_app_id: a.context.durable_app_id,
            },
        ),
        AppBehavioralMetric::Page(a) => AXPMetric::InAppPageView(
            InAppPageView {
                src_page_id: a.page_id,
                app_session_id: a.context.app_session_id,
                app_user_session_id: option_string_to_pabs(a.context.app_user_session_id),
                durable_app_id: a.context.durable_app_id,
            },
        ),
        AppBehavioralMetric::Action(a) => AXPMetric::InAppOtherAction(
            InAppOtherAction {
                category: ActionCategory::from(a.category),
                action_type: a._type,
                parameters: Some(a.parameters),
                app_session_id: a.context.app_session_id,
                app_user_session_id: option_string_to_pabs(a.context.app_user_session_id),
                durable_app_id: a.context.durable_app_id,
            },
        ),
        AppBehavioralMetric::MediaLoadStart(a) => AXPMetric::InAppMedia(
            media(
                InAppMediaEventType::MediaLoadStart,
                a.context,
                a.entity_id,
                None,
                None,
                None,
                None,
                None,
                None,
                None,
            ),
        ),
        AppBehavioralMetric::MediaPlay(a) => AXPMetric::InAppMedia(
            media(
                InAppMediaEventType::MediaPlay,
                a.context,
                a.entity_id,
                None,
                None,
                None,
                None,
                None,
                None,
                None,
            ),
        ),
        AppBehavioralMetric::MediaPlaying(a) => AXPMetric::InAppMedia(
            media(
                InAppMediaEventType::MediaPlaying,
                a.context,
                a.entity_id,
                None,
                None,
                None,
                None,
                None,
                None,
                None,
            ),
        ),
        AppBehavioralMetric::MediaPause(a) => AXPMetric::InAppMedia(
            media(
                InAppMediaEventType::MediaPlaying,
                a.context,
                a.entity_id,
                None,
                None,
                None,
                None,
                None,
                None,
                None,
            ),
        ),
        AppBehavioralMetric::MediaWaiting(a) => AXPMetric::InAppMedia(
            media(
                InAppMediaEventType::MediaWaiting,
                a.context,
                a.entity_id,
                None,
                None,
                None,
                None,
                None,
                None,
                None,
            ),
        ),
        AppBehavioralMetric::MediaProgress(a) => AXPMetric::InAppMedia(
            media(
                InAppMediaEventType::MediaProgress,
                a.context,
                a.entity_id,
                a.position_pct,
                a.position_seconds,
                None,
                None,
                None,
                None,
                None,
            ),
        ),
        AppBehavioralMetric::MediaSeeking(a) => AXPMetric::InAppMedia(
            media(
                InAppMediaEventType::MediaSeeking,
                a.context,
                a.entity_id,
                a.position_pct,
                a.position_seconds,
                None,
                None,
                None,
                None,
                None,
            ),
        ),
        AppBehavioralMetric::MediaSeeked(a) => AXPMetric::InAppMedia(
            media(
                InAppMediaEventType::MediaSeeked,
                a.context,
                a.entity_id,
                a.position_pct,
                a.position_seconds,
                None,
                None,
                None,
                None,
                None,
            ),
        ),
        AppBehavioralMetric::MediaRateChanged(a) => AXPMetric::InAppMedia(
            media(
                InAppMediaEventType::MediaRateChange,
                a.context,
                a.entity_id,
                None,
                None,
                Some(a.rate as i32),
                None,
                None,
                None,
                None,
            ),
        ),
        AppBehavioralMetric::MediaRenditionChanged(a) => AXPMetric::InAppMedia(
            media(
                InAppMediaEventType::MediaRenditionChange,
                a.context,
                a.entity_id,
                None,
                None,
                None,
                Some(a.bitrate as i32),
                Some(a.width as i32),
                Some(a.height as i32),
                a.profile,
            ),
        ),
        AppBehavioralMetric::MediaEnded(a) => AXPMetric::InAppMedia(
            media(
                InAppMediaEventType::MediaEnded,
                a.context,
                a.entity_id,
                None,
                None,
                None,
                None,
                None,
                None,
                None,
            ),
        ),
    }
}

/// The collector form of a Badger metric: the same fields under the Badger variant.
pub open spec fn badger_pabs(m: BadgerMetrics) -> AXPMetric {
    match m {
        BadgerMetrics::Metric(a) => AXPMetric::BadgerMetric(a),
        BadgerMetrics::AppAction(a) => AXPMetric::BadgerAppAction(a),
        BadgerMetrics::Error(a) => AXPMetric::BadgerError(a),
        BadgerMetrics::LaunchCompleted(a) => AXPMetric::BadgerLaunchCompleted(a),
        BadgerMetrics::DismissLoadingScreen(a) => AXPMetric::BadgerDismissLoadingScreen(a),
        BadgerMetrics::PageView(a) => AXPMetric::BadgerPageView(a),
        BadgerMetrics::UserAction(a) => AXPMetric::BadgerUserAction(a),
        BadgerMetrics::UserError(a) => AXPMetric::BadgerUserError(a),
    }
}

/// The collector form of a Badger metric.
pub fn badger_2_pabs(badger_metric: BadgerMetrics) -> (r: AXPMetric)
    ensures
        r == badger_pabs(badger_metric),
{
    match badger_metric {
        BadgerMetrics::Metric(a) => AXPMetric::BadgerMetric(a),
        BadgerMetrics::AppAction(a) => AXPMetric::BadgerAppAction(a),
        BadgerMetrics::Error(a) => AXPMetric::BadgerError(a),
        BadgerMetrics::LaunchCompleted(a) => AXPMetric::BadgerLaunchCompleted(a),
        BadgerMetrics::DismissLoadingScreen(a) => AXPMetric::BadgerDismissLoadingScreen(a),
        BadgerMetrics::PageView(a) => AXPMetric::BadgerPageView(a),
        BadgerMetrics::UserAction(a) => AXPMetric::BadgerUserAction(a),
        BadgerMetrics::UserError(a) => AXPMetric::BadgerUserError(a),
    }
}

/// The base name of the event of a collector metric, before any alias.
pub open spec fn base_event_name(m: AXPMetric) -> Seq<char> {
    match m {
        AXPMetric::BadgerAppAction(_) => "app_action"@,
        AXPMetric::BadgerMetric(_) => "metric"@,
        AXPMetric::BadgerError(_) => "error"@,
        AXPMetric::BadgerLaunchCompleted(_) => "launch_completed"@,
        AXPMetric::BadgerDismissLoadingScreen(_) => "dismiss_loading_screen"@,
        AXPMetric::BadgerPageView(_) => "page_view"@,
        AXPMetric::BadgerUserAction(_) => "user_action"@,
        AXPMetric::BadgerUserError(_) => "user_error"@,
        AXPMetric::AppLifecycleStateChange(_) => "app_lc_state_change"@,
        AXPMetric::InAppMedia(_) => "inapp_media"@,
        AXPMetric::InAppError(_) => "app_error"@,
        AXPMetric::InAppContentStart(_) => "inapp_content_start"@,
        AXPMetric::InAppContentStop(_) => "inapp_content_stop"@,
        AXPMetric::InAppPageView(_) => "inapp_page_view"@,
        AXPMetric::InAppOtherAction(_) => "inapp_other_action"@,
        AXPMetric::AppReady(_) => "app_ready"@,
    }
}

/// Whether a collector metric is sent as a Badger event (only application actions are).
pub open spec fn spec_is_badger(m: AXPMetric) -> bool {
    m is BadgerAppAction
}

impl AXPMetric {
    fn base_name(&self) -> (r: &'static str)
        ensures
            r@ == base_event_name(*self),
    {
        match self {
            AXPMetric::BadgerAppAction(_) => "app_action",
            AXPMetric::BadgerMetric(_) => "metric",
            AXPMetric::BadgerError(_) => "error",
            AXPMetric::BadgerLaunchCompleted(_) => "launch_completed",
            AXPMetric::BadgerDismissLoadingScreen(_) => "dismiss_loading_screen",
            AXPMetric::BadgerPageView(_) => "page_view",
            AXPMetric::BadgerUserAction(_) => "user_action",
            AXPMetric::BadgerUserError(_) => "user_error",
            AXPMetric::AppLifecycleStateChange(_) => "app_lc_state_change",
            AXPMetric::InAppMedia(_) => "inapp_media",
            AXPMetric::InAppError(_) => "app_error",
            AXPMetric::InAppContentStart(_) => "inapp_content_start",
            AXPMetric::InAppContentStop(_) => "inapp_content_stop",
            AXPMetric::InAppPageView(_) => "inapp_page_view",
            AXPMetric::InAppOtherAction(_) => "inapp_other_action",
            AXPMetric::AppReady(_) => "app_ready",
        }
    }

    /// The name under which this metric is sent.
    pub fn event_name(&self, metrics_schemas: &MetricsSchemas) -> (r: String)
        ensures
            r@ == event_name_alias(*metrics_schemas, base_event_name(*self)),
    {
        metrics_schemas.get_event_name_alias(self.base_name())
    }

    /// Whether this metric is sent as a Badger event.
    pub fn is_badger(&self) -> (r: bool)
        ensures
            r == spec_is_badger(*self),
    {
        match self {
            AXPMetric::BadgerAppAction(_) => true,
            _ => false,
        }
    }

    /// The event type: "firebadger" for Badger events, "firebolt" for the others.
    pub fn event_type(&self) -> (r: String)
        ensures
            r@ == (if spec_is_badger(*self) {
                "firebadger"@
            } else {
                "firebolt"@
            }),
    {
        if self.is_badger() {
            "firebadger".to_owned()
        } else {
            "firebolt".to_owned()
        }
    }

    /// The schema path of this metric's event.
    pub fn event_schema(&self, metrics_schemas: &MetricsSchemas) -> (r: String)
        ensures
            r@ == event_path(
                *metrics_schemas,
                event_name_alias(*metrics_schemas, base_event_name(*self)),
            ),
    {
        let name = self.event_name(metrics_schemas);
        metrics_schemas.get_event_path(name.as_str())
    }

    /// The version of the collector schema.
    pub fn schema_version(&self) -> (r: String)
        ensures
            r@ == "3"@,
    {
        "3".to_owned()
    }
}


/// The collector event that a Firebolt metric becomes is the one of its kind:
/// the ready and state change events are life cycle changes, content starts and
/// stops are content starts and stops (of the same content), pages are page
/// views (of the same page), sign in, sign out and actions are other actions,
/// errors are application errors, and each media event is a media event of
/// the matching name (a pause is sent under the playing name) on the same
/// content.
pub proof fn law_collector_event_of_kind(m: AppBehavioralMetric, r: AXPMetric)
    requires
        is_pabs_of(m, r),
    ensures
        (m is Ready || m is AppStateChange) ==> base_event_name(r) == "app_lc_state_change"@,
        m is Error ==> base_event_name(r) == "app_error"@,
        (m is SignIn || m is SignOut || m is Action) ==> base_event_name(r) == "inapp_other_action"@,
        m matches AppBehavioralMetric::SignIn(_) ==> r->InAppOtherAction_0.action_type@ == "sign_in"@,
        m matches AppBehavioralMetric::SignOut(_) ==> r->InAppOtherAction_0.action_type@ == "sign_out"@,
        m matches AppBehavioralMetric::StartContent(a) ==> base_event_name(r) == "inapp_content_start"@
            && r->InAppContentStart_0.src_entity_id == a.entity_id,
        m matches AppBehavioralMetric::StopContent(a) ==> base_event_name(r) == "inapp_content_stop"@
            && r->InAppContentStop_0.src_entity_id == a.entity_id,
        m matches AppBehavioralMetric::Page(a) ==> base_event_name(r) == "inapp_page_view"@
            && r->InAppPageView_0.src_page_id == a.page_id,
        m matches AppBehavioralMetric::MediaLoadStart(a) ==> r matches AXPMetric::InAppMedia(x)
            && x.media_event_name == InAppMediaEventType::MediaLoadStart && x.src_page_id == a.entity_id,
        m matches AppBehavioralMetric::MediaPlay(a) ==> r matches AXPMetric::InAppMedia(x)
            && x.media_event_name == InAppMediaEventType::MediaPlay && x.src_page_id == a.entity_id,
        m matches AppBehavioralMetric::MediaPlaying(a) ==> r matches AXPMetric::InAppMedia(x)
            && x.media_event_name == InAppMediaEventType::MediaPlaying && x.src_page_id == a.entity_id,
        m matches AppBehavioralMetric::MediaPause(a) ==> r matches AXPMetric::InAppMedia(x)
            && x.media_event_name == InAppMediaEventType::MediaPlaying && x.src_page_id == a.entity_id,
        m matches AppBehavioralMetric::MediaWaiting(a) ==> r matches AXPMetric::InAppMedia(x)
            && x.media_event_name == InAppMediaEventType::MediaWaiting && x.src_page_id == a.entity_id,
        m matches AppBehavioralMetric::MediaProgress(a) ==> r matches AXPMetric::InAppMedia(x)
            && x.media_event_name == InAppMediaEventType::MediaProgress && x.src_page_id == a.entity_id,
        m matches AppBehavioralMetric::MediaSeeking(a) ==> r matches AXPMetric::InAppMedia(x)
            && x.media_event_name == InAppMediaEventType::MediaSeeking && x.src_page_id == a.entity_id,
        m matches AppBehavioralMetric::MediaSeeked(a) ==> r matches AXPMetric::InAppMedia(x)
            && x.media_event_name == InAppMediaEventType::MediaSeeked && x.src_page_id == a.entity_id,
        m matches AppBehavioralMetric::MediaRateChanged(a) ==> r matches AXPMetric::InAppMedia(x)
            && x.media_event_name == InAppMediaEventType::MediaRateChange && x.src_page_id == a.entity_id,
        m matches AppBehavioralMetric::MediaRenditionChanged(a) ==> r matches AXPMetric::InAppMedia(x)
            && x.media_event_name == InAppMediaEventType::MediaRenditionChange && x.src_page_id == a.entity_id,
        m matches AppBehavioralMetric::MediaEnded(a) ==> r matches AXPMetric::InAppMedia(x)
            && x.media_event_name == InAppMediaEventType::MediaEnded && x.src_page_id == a.entity_id,
{
}
} // verus!
