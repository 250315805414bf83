use vstd::prelude::*;

use crate::config::CloudServiceScopes;
use crate::model::{views, DistributorSession};
use crate::text_map::TextMap;

verus! {

/// The kinds of account link that the session service knows.
#[derive(Clone, Copy, Debug, PartialEq, Eq, Structural)]
pub enum AccountLinkType {
    AccountLink,
    EntitlementsUpdate,
    LaunchPad,
}

/// The account link actions that the session service knows.
#[derive(Clone, Copy, Debug, PartialEq, Eq, Structural)]
pub enum AccountLinkAction {
    SignIn,
    SignOut,
    AppLaunch,
    Create,
    Delete,
}

/// The base URLs of the playback and video services.
pub struct XvpServiceUrls {
    xvp_playback_base_url: String,
    xvp_video_service_base_url: String,
}

impl XvpServiceUrls {
    /// The playback service's base URL.
    pub closed spec fn playback_url(&self) -> Seq<char> {
        self.xvp_playback_base_url@
    }

    /// The video service's base URL.
    pub closed spec fn video_service_url(&self) -> Seq<char> {
        self.xvp_video_service_base_url@
    }

    /// The URLs of the two services.
    pub fn new(xvp_playback_base_url: String, xvp_video_service_base_url: String) -> (r: XvpServiceUrls)
        ensures
            r.playback_url() == xvp_playback_base_url@,
            r.video_service_url() == xvp_video_service_base_url@,
    {
        XvpServiceUrls { xvp_playback_base_url, xvp_video_service_base_url }
    }

    /// The playback service's base URL.
    pub fn get_xvp_playback_url(&self) -> (r: &str)
        ensures
            r@ == self.playback_url(),
    {
        self.xvp_playback_base_url.as_str()
    }

    /// The video service's base URL.
    pub fn get_xvp_video_service_url(&self) -> (r: &str)
        ensures
            r@ == self.video_service_url(),
    {
        self.xvp_video_service_base_url.as_str()
    }
}

/// An entitlement of an application; times in seconds since the Unix epoch.
pub struct DiscoveryEntitlement {
    pub entitlement_id: String,
    pub start_time: i64,
    pub end_time: i64,
}

/// An entitlement as the session service is sent it.
pub struct Entitlement {
    pub id: String,
    pub start_date: i32,
    pub end_date: i32,
}

/// An image of an application in one locale.
pub struct ImagesData {
    pub locale: String,
    pub image_description: String,
}

/// A launchpad tile of an application, with its images by aspect and locale.
pub struct AccountLaunchpad {
    pub expiration: i64,
    pub app_name: String,
    pub content_id: Option<String>,
    pub deeplink: Option<String>,
    pub content_url: Option<String>,
    pub app_id: String,
    pub title: Vec<(String, String)>,
    pub images: Vec<(String, Vec<(String, String)>)>,
    pub account_link_type: String,
    pub account_link_action: String,
}

/// A launchpad tile to be linked to the account.
pub struct LaunchPadAccountLinkRequestParams {
    pub link_launchpad: AccountLaunchpad,
    pub content_partner_id: String,
    pub dist_session: DistributorSession,
}

/// The entitlements of an application to be linked to the account.
pub struct EntitlementsAccountLinkRequestParams {
    pub account_link_type: Option<String>,
    pub account_link_action: Option<String>,
    pub entitlements: Vec<DiscoveryEntitlement>,
    pub app_id: String,
    pub content_partner_id: String,
    pub dist_session: DistributorSession,
}

/// A launchpad tile as the session service is sent it; missing texts are empty.
pub struct LinkAccountLaunchpad {
    pub expiration: i64,
    pub app_name: String,
    pub content_id: String,
    pub deeplink: String,
    pub content_url: String,
    pub durable_app_id: String,
    pub title: Vec<(String, String)>,
    pub images: TextMap<ImagesData>,
    pub account_link_type: AccountLinkType,
    pub account_link_action: AccountLinkAction,
}

/// The launchpad request of the session service.
pub struct LinkAccountLaunchpadRequest {
    pub link_launchpad: Option<LinkAccountLaunchpad>,
    pub content_partner_id: String,
}

/// Entitlements as the session service is sent them; a missing type or action
/// is `None`.
pub struct LinkEntitlements {
    pub account_link_type: Option<AccountLinkType>,
    pub account_link_action: Option<AccountLinkAction>,
    pub entitlements: Vec<Entitlement>,
    pub durable_app_id: String,
}

/// The entitlements request of the session service.
pub struct LinkAccountEntitlementsRequest {
    pub link_entitlements: Option<LinkEntitlements>,
    pub content_partner_id: String,
}

/// The value under the first key `key` of a table, or `default`.
pub open spec fn lookup_or<T>(table: Seq<(String, T)>, key: Seq<char>, default: T) -> T
    decreases table.len(),
{
    if table.len() == 0 {
        default
    } else if table[0].0@ == key {
        table[0].1
    } else {
        lookup_or(table.skip(1), key, default)
    }
}

/// The text of an optional text; empty when missing.
pub open spec fn text_or_empty(o: Option<String>) -> Seq<char> {
    match o {
        Some(s) => s@,
        None => Seq::empty(),
    }
}

/// Whether `e` is the entitlement `d` as the session service is sent it:
/// the times are cut to 32 bits.
pub open spec fn sent_entitlement(d: DiscoveryEntitlement, e: Entitlement) -> bool {
    e.id@ == d.entitlement_id@ && e.start_date == d.start_time as i32 && e.end_date == d.end_time as i32
}

/// The images of a tile by aspect: for each aspect, the last locale given.
pub open spec fn images_map(images: Seq<(String, Vec<(String, String)>)>) -> Map<Seq<char>, (Seq<char>, Seq<char>)>
    decreases images.len(),
{
    if images.len() == 0 {
        Map::empty()
    } else {
        locales_into(images_map(images.drop_last()), images.last().0@, images.last().1@)
    }
}

/// `m` with each locale of `aspect`, in order, recorded under the aspect.
pub open spec fn locales_into(
    m: Map<Seq<char>, (Seq<char>, Seq<char>)>,
    aspect: Seq<char>,
    data: Seq<(String, String)>,
) -> Map<Seq<char>, (Seq<char>, Seq<char>)>
    decreases data.len(),
{
    if data.len() == 0 {
        m
    } else {
        locales_into(m, aspect, data.drop_last()).insert(aspect, (data.last().0@, data.last().1@))
    }
}

/// The texts of an image map.
pub open spec fn image_views(m: Map<Seq<char>, ImagesData>) -> Map<Seq<char>, (Seq<char>, Seq<char>)> {
    m.map_values(|d: ImagesData| (d.locale@, d.image_description@))
}

/// The texts of a list of pairs of texts.
pub open spec fn text_pairs(v: Seq<(String, String)>) -> Seq<(Seq<char>, Seq<char>)> {
    v.map_values(|p: (String, String)| (p.0@, p.1@))
}

fn copy_text_pairs(v: &Vec<(String, String)>) -> (r: Vec<(String, String)>)
    ensures
        text_pairs(r@) == text_pairs(v@),
{
    let mut r: Vec<(String, String)> = Vec::new();
    let mut i: usize = 0;
    while i < v.len()
        invariant
            i <= v@.len(),
            text_pairs(r@) =~= text_pairs(v@.take(i as int)),
        decreases v@.len() - i,
    {
        let ghost before = r@;
        r.push((v[i].0.clone(), v[i].1.clone()));
        assert(text_pairs(r@) =~= text_pairs(before).push((v@[i as int].0@, v@[i as int].1@)));
        assert(text_pairs(v@.take(i + 1)) =~= text_pairs(v@.take(i as int)).push((v@[i as int].0@, v@[i as int].1@)));
        i = i + 1;
    }
    assert(v@.take(v@.len() as int) =~= v@);
    r
}

fn text_or_empty_of(o: &Option<String>) -> (r: String)
    ensures
        r@ == text_or_empty(*o),
{
    match o {
        Some(s) => s.clone(),
        None => String::new(),
    }
}

/// The account link service: the link types and actions that it knows by
/// name, and the content services.
pub struct AppsanityAccountLinkService {
    pub supported_link_types: Vec<(String, AccountLinkType)>,
    pub supported_link_action: Vec<(String, AccountLinkAction)>,
    pub xvp_service_urls: XvpServiceUrls,
    pub xvp_data_scopes: CloudServiceScopes,
}

impl AppsanityAccountLinkService {
    /// A service that knows the link types and actions of the given tables.
    pub fn new(
        supported_link_types: Vec<(String, AccountLinkType)>,
        supported_link_action: Vec<(String, AccountLinkAction)>,
        xvp_service_urls: XvpServiceUrls,
        xvp_data_scopes: CloudServiceScopes,
    ) -> (r: AppsanityAccountLinkService)
        ensures
            r.supported_link_types == supported_link_types,
            r.supported_link_action == supported_link_action,
            r.xvp_service_urls == xvp_service_urls,
            r.xvp_data_scopes == xvp_data_scopes,
    {
        AppsanityAccountLinkService { supported_link_types, supported_link_action, xvp_service_urls, xvp_data_scopes }
    }

    /// The link type named `key`; an account link when the name is unknown.
    pub fn get_link_types(&self, key: &String) -> (r: AccountLinkType)
        ensures
            r == lookup_or(self.supported_link_types@, key@, AccountLinkType::AccountLink),
    {
        let ghost t = self.supported_link_types@;
        assert(t.skip(0) =~= t);
        let mut i: usize = 0;
        while i < self.supported_link_types.len()
            invariant
                i <= t.len(),
                t == self.supported_link_types@,
                lookup_or(t, key@, AccountLinkType::AccountLink) == lookup_or(t.skip(i as int), key@, AccountLinkType::AccountLink),
            decreases t.len() - i,
        {
            assert(t.skip(i as int)[0] == t[i as int]);
            assert(t.skip(i as int).skip(1) =~= t.skip(i + 1));
            if self.supported_link_types[i].0 == *key {
                return self.supported_link_types[i].1;
            }
            i = i + 1;
        }
        AccountLinkType::AccountLink
    }

    /// The link action named `key`; a sign-in when the name is unknown.
    pub fn get_link_action(&self, key: &String) -> (r: AccountLinkAction)
        ensures
            r == lookup_or(self.supported_link_action@, key@, AccountLinkAction::SignIn),
    {
        let ghost t = self.supported_link_action@;
        assert(t.skip(0) =~= t);
        let mut i: usize = 0;
        while i < self.supported_link_action.len()
            invariant
                i <= t.len(),
                t == self.supported_link_action@,
                lookup_or(t, key@, AccountLinkAction::SignIn) == lookup_or(t.skip(i as int), key@, AccountLinkAction::SignIn),
            decreases t.len() - i,
        {
            assert(t.skip(i as int)[0] == t[i as int]);
            assert(t.skip(i as int).skip(1) =~= t.skip(i + 1));
            if self.supported_link_action[i].0 == *key {
                return self.supported_link_action[i].1;
            }
            i = i + 1;
        }
        AccountLinkAction::SignIn
    }

    /// The entitlements as the session service is sent them, in order.
    pub fn get_entitlements(&self, entitlements: &Vec<DiscoveryEntitlement>) -> (r: Vec<Entitlement>)
        ensures
            r@.len() == entitlements@.len(),
            forall|i: int| 0 <= i < r@.len() ==> sent_entitlement(entitlements@[i], #[trigger] r@[i]),
    {
        let mut out: Vec<Entitlement> = Vec::new();
        let mut i: usize = 0;
        while i < entitlements.len()
            invariant
                i <= entitlements@.len(),
                out@.len() == i,
                forall|k: int| 0 <= k < i ==> sent_entitlement(entitlements@[k], #[trigger] out@[k]),
            decreases entitlements@.len() - i,
        {
            let item = &entitlements[i];
            out.push(
                Entitlement {
                    id: item.entitlement_id.clone(),
                    start_date: item.start_time as i32,
                    end_date: item.end_time as i32,
                },
            );
            i = i + 1;
        }
        out
    }

    /// The images of a tile by aspect; for each aspect, the last locale given.
    pub fn get_images(&self, images: &Vec<(String, Vec<(String, String)>)>) -> (r: TextMap<ImagesData>)
        ensures
            r.wf(),
            image_views(r@) == images_map(images@),
    {
        let mut map: TextMap<ImagesData> = TextMap::new();
        let mut i: usize = 0;
        while i < images.len()
            invariant
                i <= images@.len(),
                map.wf(),
                image_views(map@) =~= images_map(images@.take(i as int)),
            decreases images@.len() - i,
        {
            assert(images@.take(i + 1).drop_last() =~= images@.take(i as int));
            assert(images@.take(i + 1).last() == images@[i as int]);
            let aspect = &images[i].0;
            let data = &images[i].1;
            let ghost start = image_views(map@);
            let mut j: usize = 0;
            while j < data.len()
                invariant
                    j <= data@.len(),
                    map.wf(),
                    image_views(map@) =~= locales_into(start, aspect@, data@.take(j as int)),
                decreases data@.len() - j,
            {
                assert(data@.take(j + 1).drop_last() =~= data@.take(j as int));
                assert(data@.take(j + 1).last() == data@[j as int]);
                let ghost before = map@;
                let d = ImagesData { locale: data[j].0.clone(), image_description: data[j].1.clone() };
                map.insert(aspect.clone(), d);
                assert(image_views(map@) =~= image_views(before).insert(aspect@, (data@[j as int].0@, data@[j as int].1@)));
                j = j + 1;
            }
            assert(data@.take(data@.len() as int) =~= data@);
            i = i + 1;
        }
        assert(images@.take(images@.len() as int) =~= images@);
        map
    }

    /// The launchpad request that links a tile to the account.
    pub fn launch_pad_request(&self, params: &LaunchPadAccountLinkRequestParams) -> (r: LinkAccountLaunchpadRequest)
        ensures
            r.content_partner_id@ == params.content_partner_id@,
            r.link_launchpad matches Some(l) && {
                let p = params.link_launchpad;
                &&& l.expiration == p.expiration
                &&& l.app_name@ == p.app_name@
                &&& l.content_id@ == text_or_empty(p.content_id)
                &&& l.deeplink@ == text_or_empty(p.deeplink)
                &&& l.content_url@ == text_or_empty(p.content_url)
                &&& l.durable_app_id@ == p.app_id@
                &&& text_pairs(l.title@) == text_pairs(p.title@)
                &&& l.images.wf()
                &&& image_views(l.images@) == images_map(p.images@)
                &&& l.account_link_type == lookup_or(self.supported_link_types@, p.account_link_type@, AccountLinkType::AccountLink)
                &&& l.account_link_action == lookup_or(self.supported_link_action@, p.account_link_action@, AccountLinkAction::SignIn)
            },
    {
        let p = &params.link_launchpad;
        let launchpad = LinkAccountLaunchpad {
            expiration: p.expiration,
            app_name: p.app_name.clone(),
            content_id: text_or_empty_of(&p.content_id),
            deeplink: text_or_empty_of(&p.deeplink),
            content_url: text_or_empty_of(&p.content_url),
            durable_app_id: p.app_id.clone(),
            title: copy_text_pairs(&p.title),
            images: self.get_images(&p.images),
            account_link_type: self.get_link_types(&p.account_link_type),
            account_link_action: self.get_link_action(&p.account_link_action),
        };
        LinkAccountLaunchpadRequest {
            link_launchpad: Some(launchpad),
            content_partner_id: params.content_partner_id.clone(),
        }
    }

    /// The entitlements request that links entitlements of an application to the account.
    pub fn entitlements_request(&self, params: &EntitlementsAccountLinkRequestParams) -> (r: LinkAccountEntitlementsRequest)
        ensures
            r.content_partner_id@ == params.content_partner_id@,
            r.link_entitlements matches Some(l) && {
                &&& l.durable_app_id@ == params.app_id@
                &&& l.account_link_type == (match params.account_link_type {
                    Some(t) => Some(lookup_or(self.supported_link_types@, t@, AccountLinkType::AccountLink)),
                    None => None,
                })
                &&& l.account_link_action == (match params.account_link_action {
                    Some(a) => Some(lookup_or(self.supported_link_action@, a@, AccountLinkAction::SignIn)),
                    None => None,
                })
                &&& l.entitlements@.len() == params.entitlements@.len()
                &&& forall|i: int| 0 <= i < l.entitlements@.len() ==> sent_entitlement(params.entitlements@[i], #[trigger] l.entitlements@[i])
            },
    {
        let account_link_type = match &params.account_link_type {
            Some(t) => Some(self.get_link_types(t)),
            None => None,
        };
        let account_link_action = match &params.account_link_action {
            Some(a) => Some(self.get_link_action(a)),
            None => None,
        };
        LinkAccountEntitlementsRequest {
            link_entitlements: Some(
                LinkEntitlements {
                    account_link_type,
                    account_link_action,
                    entitlements: self.get_entitlements(&params.entitlements),
                    durable_app_id: params.app_id.clone(),
                },
            ),
            content_partner_id: params.content_partner_id.clone(),
        }
    }
}

} // verus!
