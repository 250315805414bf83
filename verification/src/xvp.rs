use vstd::prelude::*;

use crate::json::{integer_json, json_integer, json_quoted, json_string_array, quote_json, string_array_json};
use crate::model::{views, DistributorSession};
use crate::text::{concat, str_eq};
use crate::urls::{build_url, built_url};

verus! {

/// A failed call to the playback service.
pub struct XvpError {}

/// A failed call to the session service.
pub struct XvpSessionError {}

/// A failed call to the video service.
pub struct XvpClientError {}

/// An application in a distributor session.
pub struct SessionParams {
    pub app_id: String,
    pub dist_session: DistributorSession,
}

/// A change of the sign-in state of an application.
pub struct SignInRequestParams {
    pub session_info: SessionParams,
    pub is_signed_in: bool,
}

/// The unit in which the progress of a media event is counted.
#[derive(Clone, Copy, Debug, PartialEq, Eq, Structural)]
pub enum ProgressUnit {
    Percent,
    Seconds,
}

/// How far a content item was watched; `progress` is the whole number of units.
pub struct MediaEvent {
    pub content_id: String,
    pub completed: bool,
    pub progress: i64,
    pub progress_unit: ProgressUnit,
    pub watched_on: Option<String>,
    pub app_id: String,
}

/// A media event to be kept as a resume point.
pub struct MediaEventsAccountLinkRequestParams {
    pub media_event: MediaEvent,
    pub content_partner_id: String,
    pub client_supports_opt_out: bool,
    pub data_tags: Vec<String>,
    pub dist_session: DistributorSession,
}

/// What the playback service answers to a resume point.
pub struct ResumePointResponse {
    pub message_id: Option<String>,
    pub sns_status_code: Option<i16>,
    pub sns_status_text: Option<String>,
    pub aws_request_id: Option<String>,
}

/// What the video service answers to a change of sign-in state.
pub struct XvpVideoServiceResponse {
    pub partner_id: Option<String>,
    pub account_id: Option<String>,
    pub owner_reference: Option<String>,
    pub entity_urn: Option<String>,
    pub entity_id: Option<String>,
    pub entity_type: Option<String>,
    pub durable_app_id: Option<String>,
    pub event_type: Option<String>,
    pub is_signed_in: Option<bool>,
    pub added: Option<String>,
    pub updated: Option<String>,
}

/// The sign-in state that the video service is sent.
pub struct VideoServiceSignInInfo {
    pub event_type: String,
    pub is_signed_in: bool,
}

/// A PUT request to one of the content services: URL, bearer token and body.
pub struct XvpRequest {
    pub url: String,
    pub token: String,
    pub body: String,
}

/// The path of the settings of an application in the session service.
pub open spec fn app_settings_path(s: SessionParams) -> Seq<Seq<char>> {
    seq!["partners"@, s.dist_session.id@, "accounts"@, s.dist_session.account_id@, "appSettings"@, s.app_id@]
}

/// The URN of the owner of a sign-in state: the device in the "device" scope,
/// else the account.
pub open spec fn sign_in_owner(scope: Seq<char>, s: DistributorSession) -> Seq<char> {
    if scope == "device"@ {
        "xrn:xcal:subscriber:"@ + "device"@ + ":"@ + s.device_id@
    } else {
        "xrn:xcal:subscriber:"@ + "account"@ + ":"@ + s.account_id@
    }
}

/// The path of the engagement of an application in the video service.
pub open spec fn engaged_path(s: SessionParams) -> Seq<Seq<char>> {
    seq![
        "partners"@,
        s.dist_session.id@,
        "accounts"@,
        s.dist_session.account_id@,
        "videoServices"@,
        "xrn:xvp:application:"@ + s.app_id@,
        "engaged"@,
    ]
}

/// The path of a resume point in the playback service.
pub open spec fn resume_point_path(p: MediaEventsAccountLinkRequestParams) -> Seq<Seq<char>> {
    seq![
        "partners"@,
        p.dist_session.id@,
        "accounts"@,
        p.dist_session.account_id@,
        "devices"@,
        p.dist_session.device_id@,
        "resumePoints"@,
        "ott"@,
        p.content_partner_id@,
        p.media_event.content_id@,
    ]
}

/// The JSON text of a progress unit: its name.
pub open spec fn unit_json(u: ProgressUnit) -> Seq<char> {
    match u {
        ProgressUnit::Percent => "\"Percent\""@,
        ProgressUnit::Seconds => "\"Seconds\""@,
    }
}

/// Whether the data tags of a media event are a set: no tag occurs twice.
pub open spec fn distinct_tags(p: MediaEventsAccountLinkRequestParams) -> bool {
    views(p.data_tags@).no_duplicates()
}

/// The body of a resume point: the application, progress, unit, completion,
/// data tags and the device as owner.
pub open spec fn resume_point_json(p: MediaEventsAccountLinkRequestParams) -> Seq<char> {
    "{\"durableAppId\":"@ + json_quoted(p.media_event.app_id@) + ",\"progress\":"@ + json_integer(
        p.media_event.progress,
    ) + ",\"progressUnits\":"@ + unit_json(p.media_event.progress_unit) + ",\"completed\":"@ + (if p.media_event.completed {
        "true"@
    } else {
        "false"@
    }) + ",\"cet\":"@ + json_string_array(views(p.data_tags@)) + ",\"ownerReference\":"@ + json_quoted(
        "xrn:subscriber:device:"@ + p.dist_session.device_id@,
    ) + "}"@
}

/// The body of a change of sign-in state.
pub open spec fn sign_in_json(is_signed_in: bool) -> Seq<char> {
    "{\"eventType\":\"signIn\",\"isSignedIn\":"@ + (if is_signed_in { "true"@ } else { "false"@ }) + "}"@
}

/// Whether an HTTP status is a success.
pub open spec fn is_success(status: u16) -> bool {
    200 <= status < 300
}

fn push_text(v: &mut Vec<String>, s: &str)
    ensures
        views(final(v)@) == views(old(v)@).push(s@),
{
    let ghost before = v@;
    v.push(s.to_owned());
    assert(views(v@) =~= views(before).push(s@));
}

fn two_pairs(k1: &str, v1: &str, k2: &str, v2: &str) -> (r: Vec<(String, String)>)
    ensures
        crate::urls::pair_views(r@) == seq![(k1@, v1@), (k2@, v2@)],
        r@.len() == 2,
{
    let mut r: Vec<(String, String)> = Vec::new();
    r.push((k1.to_owned(), v1.to_owned()));
    r.push((k2.to_owned(), v2.to_owned()));
    assert(crate::urls::pair_views(r@) =~= seq![(k1@, v1@), (k2@, v2@)]);
    r
}

fn one_pair(k: &str, v: &str) -> (r: Vec<(String, String)>)
    ensures
        crate::urls::pair_views(r@) == seq![(k@, v@)],
        r@.len() == 1,
{
    let mut r: Vec<(String, String)> = Vec::new();
    r.push((k.to_owned(), v.to_owned()));
    assert(crate::urls::pair_views(r@) =~= seq![(k@, v@)]);
    r
}

/// The session service.
pub struct XvpSession {}

impl XvpSession {
    /// The URL of the settings of the application in the session service, for
    /// the session's device and the "ripple" client.
    pub fn build_session_url(base_url: String, session_params: &SessionParams) -> (r: Result<String, XvpSessionError>)
        ensures
            match built_url(
                base_url@,
                app_settings_path(*session_params),
                seq![("deviceId"@, session_params.dist_session.device_id@), ("clientId"@, "ripple"@)],
            ) {
                Some(u) => r matches Ok(x) && x@ == u,
                None => r is Err,
            },
    {
        let s = &session_params.dist_session;
        let mut path: Vec<String> = Vec::new();
        push_text(&mut path, "partners");
        push_text(&mut path, s.id.as_str());
        push_text(&mut path, "accounts");
        push_text(&mut path, s.account_id.as_str());
        push_text(&mut path, "appSettings");
        push_text(&mut path, session_params.app_id.as_str());
        assert(views(path@) =~= app_settings_path(*session_params));
        let pairs = two_pairs("deviceId", s.device_id.as_str(), "clientId", "ripple");
        match build_url(base_url.as_str(), &path, &pairs) {
            Some(u) => Ok(u),
            None => Err(XvpSessionError {}),
        }
    }

    /// What a reply of the session service gives: success for a success status.
    pub fn session_reply(status: u16) -> (r: Result<(), XvpSessionError>)
        ensures
            r is Ok <==> is_success(status),
    {
        if 200 <= status && status < 300 {
            Ok(())
        } else {
            Err(XvpSessionError {})
        }
    }
}

/// The video service.
pub struct XvpVideoService {}

impl XvpVideoService {
    /// The URL of the engagement of the application in the video service, with
    /// the owner of the sign-in state in `scope` and the "ripple" client.
    pub fn build_session_url(base_url: &str, scope: &str, session_params: &SessionParams) -> (r: Result<String, XvpClientError>)
        ensures
            match built_url(
                base_url@,
                engaged_path(*session_params),
                seq![("ownerReference"@, sign_in_owner(scope@, session_params.dist_session)), ("clientId"@, "ripple"@)],
            ) {
                Some(u) => r matches Ok(x) && x@ == u,
                None => r is Err,
            },
    {
        let s = &session_params.dist_session;
        let (field, value) = if str_eq(scope, "device") {
            ("device", s.device_id.as_str())
        } else {
            ("account", s.account_id.as_str())
        };
        let a = concat("xrn:xcal:subscriber:", field);
        let b = concat(a.as_str(), ":");
        let owner_reference = concat(b.as_str(), value);
        let entity_urn = concat("xrn:xvp:application:", session_params.app_id.as_str());
        let mut path: Vec<String> = Vec::new();
        push_text(&mut path, "partners");
        push_text(&mut path, s.id.as_str());
        push_text(&mut path, "accounts");
        push_text(&mut path, s.account_id.as_str());
        push_text(&mut path, "videoServices");
        push_text(&mut path, entity_urn.as_str());
        push_text(&mut path, "engaged");
        assert(views(path@) =~= engaged_path(*session_params));
        let pairs = two_pairs("ownerReference", owner_reference.as_str(), "clientId", "ripple");
        match build_url(base_url, &path, &pairs) {
            Some(u) => Ok(u),
            None => Err(XvpClientError {}),
        }
    }

    /// The body that tells the video service of a change of sign-in state.
    pub fn sign_in_body(is_signed_in: bool) -> (r: String)
        ensures
            r@ == sign_in_json(is_signed_in),
    {
        let flag = if is_signed_in {
            "true"
        } else {
            "false"
        };
        let a = concat("{\"eventType\":\"signIn\",\"isSignedIn\":", flag);
        concat(a.as_str(), "}")
    }

    /// The request that tells the video service, at `base_url` and in `scope`,
    /// of a change of sign-in state.
    pub fn sign_in_request(base_url: &str, scope: &str, params: &SignInRequestParams) -> (r: Result<XvpRequest, XvpClientError>)
        ensures
            match built_url(
                base_url@,
                engaged_path(params.session_info),
                seq![
                    ("ownerReference"@, sign_in_owner(scope@, params.session_info.dist_session)),
                    ("clientId"@, "ripple"@),
                ],
            ) {
                Some(u) => r matches Ok(x) && x.url@ == u && x.token@ == params.session_info.dist_session.token@
                    && x.body@ == sign_in_json(params.is_signed_in),
                None => r is Err,
            },
    {
        match Self::build_session_url(base_url, scope, &params.session_info) {
            Ok(url) => Ok(
                XvpRequest {
                    url,
                    token: params.session_info.dist_session.token.clone(),
                    body: Self::sign_in_body(params.is_signed_in),
                },
            ),
            Err(e) => Err(e),
        }
    }

    /// What a reply of the video service gives: the parsed answer to a status
    /// 200 (`parsed` is `None` when the body was not an answer), else a failure.
    pub fn video_service_reply(status: u16, parsed: Option<XvpVideoServiceResponse>) -> (r: Result<XvpVideoServiceResponse, XvpClientError>)
        ensures
            status == 200 && parsed is Some ==> (r matches Ok(x) && parsed == Some(x)),
            !(status == 200 && parsed is Some) ==> r is Err,
    {
        if status == 200 {
            match parsed {
                Some(p) => Ok(p),
                None => Err(XvpClientError {}),
            }
        } else {
            Err(XvpClientError {})
        }
    }
}

/// The playback service.
pub struct XvpPlayback {}

impl XvpPlayback {
    /// The body of a resume point.
    pub fn resume_point_body(params: &MediaEventsAccountLinkRequestParams) -> (r: String)
        requires
            distinct_tags(*params),
        ensures
            r@ == resume_point_json(*params),
    {
        let e = &params.media_event;
        let mut out = concat("{\"durableAppId\":", quote_json(e.app_id.as_str()).as_str());
        out = concat(out.as_str(), ",\"progress\":");
        out = concat(out.as_str(), integer_json(e.progress).as_str());
        out = concat(out.as_str(), ",\"progressUnits\":");
        let unit = match e.progress_unit {
            ProgressUnit::Percent => "\"Percent\"",
            ProgressUnit::Seconds => "\"Seconds\"",
        };
        out = concat(out.as_str(), unit);
        out = concat(out.as_str(), ",\"completed\":");
        out = concat(out.as_str(), if e.completed { "true" } else { "false" });
        out = concat(out.as_str(), ",\"cet\":");
        out = concat(out.as_str(), string_array_json(&params.data_tags).as_str());
        out = concat(out.as_str(), ",\"ownerReference\":");
        let owner = concat("xrn:subscriber:device:", params.dist_session.device_id.as_str());
        out = concat(out.as_str(), quote_json(owner.as_str()).as_str());
        concat(out.as_str(), "}")
    }

    /// The request that keeps a media event as a resume point in the playback
    /// service at `base_url`, for the "ripple" client.
    pub fn resume_point_request(base_url: &str, params: &MediaEventsAccountLinkRequestParams) -> (r: Result<XvpRequest, XvpError>)
        requires
            distinct_tags(*params),
        ensures
            match built_url(base_url@, resume_point_path(*params), seq![("clientId"@, "ripple"@)]) {
                Some(u) => r matches Ok(x) && x.url@ == u && x.token@ == params.dist_session.token@
                    && x.body@ == resume_point_json(*params),
                None => r is Err,
            },
    {
        let s = &params.dist_session;
        let mut path: Vec<String> = Vec::new();
        push_text(&mut path, "partners");
        push_text(&mut path, s.id.as_str());
        push_text(&mut path, "accounts");
        push_text(&mut path, s.account_id.as_str());
        push_text(&mut path, "devices");
        push_text(&mut path, s.device_id.as_str());
        push_text(&mut path, "resumePoints");
        push_text(&mut path, "ott");
        push_text(&mut path, params.content_partner_id.as_str());
        push_text(&mut path, params.media_event.content_id.as_str());
        assert(views(path@) =~= resume_point_path(*params));
        let pairs = one_pair("clientId", "ripple");
        match build_url(base_url, &path, &pairs) {
            Some(url) => Ok(XvpRequest { url, token: s.token.clone(), body: Self::resume_point_body(params) }),
            None => Err(XvpError {}),
        }
    }

    /// What a reply of the playback service gives: the parsed answer to a
    /// success status (`parsed` is `None` when the body was not an answer).
    pub fn resume_point_reply(status: u16, parsed: Option<ResumePointResponse>) -> (r: Result<ResumePointResponse, XvpError>)
        ensures
            is_success(status) && parsed is Some ==> (r matches Ok(x) && parsed == Some(x)),
            !(is_success(status) && parsed is Some) ==> r is Err,
    {
        if 200 <= status && status < 300 {
            match parsed {
                Some(p) => Ok(p),
                None => Err(XvpError {}),
            }
        } else {
            Err(XvpError {})
        }
    }
}

} // verus!
