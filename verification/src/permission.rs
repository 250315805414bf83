use vstd::prelude::*;

use crate::config::opt_view;
use crate::model::{contains_string, copy_strings, views, DistributorSession, DpabError, Role};
use crate::text_map::TextMap;

verus! {

/// The capabilities that a permission grants, by role.
pub struct CapabilityRoleList {
    pub use_caps: Vec<String>,
    pub manage_caps: Vec<String>,
    pub provide_caps: Vec<String>,
}

/// A permission of the permission service, with the capabilities and the
/// platform methods that it grants.
pub struct FireboltPermission {
    pub capability: CapabilityRoleList,
    pub apis: Vec<String>,
    pub description: String,
    pub display_name: String,
    pub id: String,
    pub provider: String,
}

/// A capability together with the role in which it is granted.
pub struct CapabilityRole {
    pub cap: String,
    pub role: Role,
}

/// The capabilities that a permission grants in `role`.
pub open spec fn caps_for_role(c: CapabilityRoleList, role: Role) -> Seq<Seq<char>> {
    match role {
        Role::Use => views(c.use_caps@),
        Role::Manage => views(c.manage_caps@),
        Role::Provide => views(c.provide_caps@),
    }
}

impl FireboltPermission {
    /// Whether this permission grants the platform method `api`.
    pub fn contains_api(&self, api: &String) -> (r: bool)
        ensures
            r == views(self.apis@).contains(api@),
    {
        contains_string(&self.apis, api)
    }

    /// Whether this permission grants `capability` in `role`.
    pub fn contains_capability(&self, capability: &String, role: &Role) -> (r: bool)
        ensures
            r == caps_for_role(self.capability, *role).contains(capability@),
    {
        match role {
            Role::Use => contains_string(&self.capability.use_caps, capability),
            Role::Manage => contains_string(&self.capability.manage_caps, capability),
            Role::Provide => contains_string(&self.capability.provide_caps, capability),
        }
    }
}

/// The ids of the permissions, in order, that grant the platform method `api`.
pub open spec fn api_permission_ids(perms: Seq<FireboltPermission>, api: Seq<char>) -> Seq<Seq<char>>
    decreases perms.len(),
{
    if perms.len() == 0 {
        Seq::empty()
    } else {
        let rest = api_permission_ids(perms.drop_last(), api);
        if views(perms.last().apis@).contains(api) {
            rest.push(perms.last().id@)
        } else {
            rest
        }
    }
}

/// The ids of the permissions, in order, that grant `cap` in `role`.
pub open spec fn cap_permission_ids(perms: Seq<FireboltPermission>, cap: Seq<char>, role: Role) -> Seq<Seq<char>>
    decreases perms.len(),
{
    if perms.len() == 0 {
        Seq::empty()
    } else {
        let rest = cap_permission_ids(perms.drop_last(), cap, role);
        if caps_for_role(perms.last().capability, role).contains(cap) {
            rest.push(perms.last().id@)
        } else {
            rest
        }
    }
}

/// The ids of the permissions that grant the platform method `api`.
pub fn permissions_for_api(perms: &Vec<FireboltPermission>, api: &String) -> (r: Vec<String>)
    ensures
        views(r@) == api_permission_ids(perms@, api@),
{
    let mut out: Vec<String> = Vec::new();
    let mut i: usize = 0;
    while i < perms.len()
        invariant
            i <= perms@.len(),
            views(out@) == api_permission_ids(perms@.take(i as int), api@),
        decreases perms@.len() - i,
    {
        assert(perms@.take(i + 1).drop_last() =~= perms@.take(i as int));
        assert(perms@.take(i + 1).last() == perms@[i as int]);
        if perms[i].contains_api(api) {
            let ghost before = out@;
            out.push(perms[i].id.clone());
            assert(views(out@) =~= views(before).push(perms@[i as int].id@));
        }
        i = i + 1;
    }
    assert(perms@.take(perms@.len() as int) =~= perms@);
    out
}

/// The ids of the permissions that grant `capability` in `role`.
pub fn permissions_for_capability(perms: &Vec<FireboltPermission>, capability: &String, role: Role) -> (r: Vec<String>)
    ensures
        views(r@) == cap_permission_ids(perms@, capability@, role),
{
    let mut out: Vec<String> = Vec::new();
    let mut i: usize = 0;
    while i < perms.len()
        invariant
            i <= perms@.len(),
            views(out@) == cap_permission_ids(perms@.take(i as int), capability@, role),
        decreases perms@.len() - i,
    {
        assert(perms@.take(i + 1).drop_last() =~= perms@.take(i as int));
        assert(perms@.take(i + 1).last() == perms@[i as int]);
        if perms[i].contains_capability(capability, &role) {
            let ghost before = out@;
            out.push(perms[i].id.clone());
            assert(views(out@) =~= views(before).push(perms@[i as int].id@));
        }
        i = i + 1;
    }
    assert(perms@.take(perms@.len() as int) =~= perms@);
    out
}

/// Whether some of the requested permissions is among the allowed ones; never
/// when nothing is requested.
pub open spec fn granted_by(requested: Seq<Seq<char>>, allowed: Seq<Seq<char>>) -> bool {
    exists|i: int| 0 <= i < requested.len() && allowed.contains(#[trigger] requested[i])
}

/// Whether some of the requested permissions is among the allowed ones.
pub fn any_granted(requested: &Vec<String>, allowed: &Vec<String>) -> (r: bool)
    ensures
        r == granted_by(views(requested@), views(allowed@)),
{
    let mut i: usize = 0;
    while i < requested.len()
        invariant
            i <= requested@.len(),
            forall|j: int| 0 <= j < i ==> !views(allowed@).contains(#[trigger] views(requested@)[j]),
        decreases requested@.len() - i,
    {
        if contains_string(allowed, &requested[i]) {
            assert(views(requested@)[i as int] == requested@[i as int]@);
            return true;
        }
        i = i + 1;
    }
    false
}

/// The errors of the permission service.
#[derive(Debug)]
pub enum ThorPermissionError {
    ServiceError { context: String },
    TimedOutError,
    IoError,
}

/// The kinds of access that an application can ask for to a platform method.
#[derive(Clone, Copy, Debug, PartialEq, Eq, Structural)]
pub enum ApiRequestedGrantType {
    ReadOnly,
    Denied,
}

/// Whether an application is allowed to call a platform method.
#[derive(Clone, Copy, Debug, PartialEq, Eq, Structural)]
pub enum AuthorizationDisposition {
    Allowed,
    Denied,
}

/// The outcome of an authorization: the access given and the disposition.
#[derive(Clone, Copy, Debug, PartialEq, Eq, Structural)]
pub struct AuthorizationOutCome {
    pub grant_type: ApiRequestedGrantType,
    pub disposition: AuthorizationDisposition,
}

/// A request of an application to call a platform method, or to use a capability.
pub struct ApiGrantRequest {
    pub app_id: String,
    pub partner_id: String,
    pub api_name: String,
    pub requested_grant: ApiRequestedGrantType,
    pub capability: Option<String>,
}

/// The answer to an [`ApiGrantRequest`].
pub struct ApiGrantResponse {
    pub request: ApiGrantRequest,
    pub outcome: AuthorizationOutCome,
}

/// The outcome of a request whose permissions are `requested` when the
/// application holds `allowed`: the requested access, allowed, when some
/// requested permission is held; denied otherwise.
pub open spec fn api_outcome(
    requested_grant: ApiRequestedGrantType,
    requested: Seq<Seq<char>>,
    allowed: Seq<Seq<char>>,
) -> AuthorizationOutCome {
    if granted_by(requested, allowed) {
        AuthorizationOutCome { grant_type: requested_grant, disposition: AuthorizationDisposition::Allowed }
    } else {
        AuthorizationOutCome {
            grant_type: ApiRequestedGrantType::Denied,
            disposition: AuthorizationDisposition::Denied,
        }
    }
}

/// The answer to `request` when its permissions are `requested` and the
/// application holds `allowed`.
pub fn api_grant_response(request: ApiGrantRequest, requested: &Vec<String>, allowed: &Vec<String>) -> (r: ApiGrantResponse)
    ensures
        r.request == request,
        r.outcome == api_outcome(request.requested_grant, views(requested@), views(allowed@)),
{
    if requested.len() == 0 {
        return ApiGrantResponse {
            request,
            outcome: AuthorizationOutCome {
                grant_type: ApiRequestedGrantType::Denied,
                disposition: AuthorizationDisposition::Denied,
            },
        };
    }
    if any_granted(requested, allowed) {
        let grant_type = request.requested_grant;
        ApiGrantResponse {
            request,
            outcome: AuthorizationOutCome { grant_type, disposition: AuthorizationDisposition::Allowed },
        }
    } else {
        ApiGrantResponse {
            request,
            outcome: AuthorizationOutCome {
                grant_type: ApiRequestedGrantType::Denied,
                disposition: AuthorizationDisposition::Denied,
            },
        }
    }
}

/// What is asked of a capability: the capability or, without one, the method
/// named in its place, and the role (use, when none is given).
pub struct PermissionRequestParam {
    pub capability: Option<String>,
    pub method: Option<String>,
    pub role: Option<Role>,
}

/// The capability that a parameter asks about, where it names one.
pub open spec fn param_key(p: PermissionRequestParam) -> Option<Seq<char>> {
    match p.capability {
        Some(c) => Some(c@),
        None => opt_view(p.method),
    }
}

/// The capability that a parameter asks about; empty when it names none.
pub open spec fn param_cap(p: PermissionRequestParam) -> Seq<char> {
    match param_key(p) {
        Some(k) => k,
        None => Seq::empty(),
    }
}

/// The role that a parameter asks about; use, when none is given.
pub open spec fn param_role(p: PermissionRequestParam) -> Role {
    match p.role {
        Some(r) => r,
        None => Role::Use,
    }
}

impl PermissionRequestParam {
    /// The capability asked about: the capability, else the method.
    pub fn get(&self) -> (r: Option<String>)
        ensures
            opt_view(r) == param_key(*self),
    {
        match &self.capability {
            Some(c) => Some(c.clone()),
            None => match &self.method {
                Some(m) => Some(m.clone()),
                None => None,
            },
        }
    }
}

/// What an application asks of the permission service.
pub enum PermissionRequestPayload {
    Check(PermissionRequestParam),
    CheckAll(Vec<PermissionRequestParam>),
    ListCaps,
    ListFireboltPermissions,
    ListMethods,
}

/// A request of an application, in a distributor session, to the permission service.
pub struct PermissionRequest {
    pub app_id: String,
    pub session: DistributorSession,
    pub payload: PermissionRequestPayload,
}

/// The answers of the permission service.
pub enum PermissionResponse {
    Check(bool),
    CheckAllCaps(TextMap<bool>),
    List(Vec<String>),
    FireboltPermissions(Vec<CapabilityRole>),
}

/// The registry of the permissions that the platform knows, with the
/// capabilities that the permission ids held by an application stand for.
///
/// An implementation that describes itself overrides `obeys_registry_spec` to
/// answer `true` and the three spec functions to say what its methods return;
/// of one that does not, nothing is known beyond the types.
pub trait FireboltPermissionRegistry {
    /// Whether the methods return what the spec functions below say.
    open spec fn obeys_registry_spec() -> bool {
        false
    }

    /// The permissions that the registry knows.
    open spec fn spec_permissions(&self) -> Seq<FireboltPermission> {
        Seq::empty()
    }

    /// The capabilities that the permission ids `ids` stand for.
    open spec fn spec_caps_from_ref(&self, ids: Seq<Seq<char>>) -> Seq<Seq<char>> {
        Seq::empty()
    }

    /// The capabilities, with their roles, that the permission ids `ids` stand for.
    open spec fn spec_permissions_from_ref(&self, ids: Seq<Seq<char>>) -> Seq<CapabilityRole> {
        Seq::empty()
    }

    fn permissions(&self) -> (r: Vec<FireboltPermission>)
        ensures
            Self::obeys_registry_spec() ==> r@ == self.spec_permissions(),
    ;

    fn get_firebolt_caps_from_ref(&self, ids: Vec<String>) -> (r: Vec<String>)
        ensures
            Self::obeys_registry_spec() ==> views(r@) == self.spec_caps_from_ref(views(ids@)),
    ;

    fn get_firebolt_permissions_from_ref(&self, ids: Vec<String>) -> (r: Vec<CapabilityRole>)
        ensures
            Self::obeys_registry_spec() ==> r@ == self.spec_permissions_from_ref(views(ids@)),
    ;
}

/// Whether the permissions `granted` grant `cap` in `role`, under the
/// registered permissions `perms`.
pub open spec fn capability_granted(perms: Seq<FireboltPermission>, cap: Seq<char>, role: Role, granted: Seq<Seq<char>>) -> bool {
    granted_by(cap_permission_ids(perms, cap, role), granted)
}

/// The answers to a check of several capabilities, later ones taking precedence.
pub open spec fn check_all_map(
    perms: Seq<FireboltPermission>,
    params: Seq<PermissionRequestParam>,
    granted: Seq<Seq<char>>,
) -> Map<Seq<char>, bool>
    decreases params.len(),
{
    if params.len() == 0 {
        Map::empty()
    } else {
        let p = params.last();
        check_all_map(perms, params.drop_last(), granted).insert(
            param_cap(p),
            capability_granted(perms, param_cap(p), param_role(p), granted),
        )
    }
}

/// Whether `r` answers `payload` for an application that holds `granted`:
/// checks are decided by the registered permissions, the registry `reg` lists
/// the capabilities that the held ids stand for, and the methods are the
/// permissions held.
pub open spec fn answers<R: FireboltPermissionRegistry>(
    reg: &R,
    perms: Seq<FireboltPermission>,
    payload: PermissionRequestPayload,
    granted: Seq<Seq<char>>,
    r: PermissionResponse,
) -> bool {
    match payload {
        PermissionRequestPayload::Check(p) => r == PermissionResponse::Check(
            capability_granted(perms, param_cap(p), param_role(p), granted),
        ),
        PermissionRequestPayload::CheckAll(ps) => r matches PermissionResponse::CheckAllCaps(m) && m.wf()
            && m@ == check_all_map(perms, ps@, granted),
        PermissionRequestPayload::ListCaps => r matches PermissionResponse::List(l) && (R::obeys_registry_spec()
            ==> views(l@) == reg.spec_caps_from_ref(granted)),
        PermissionRequestPayload::ListFireboltPermissions => r matches PermissionResponse::FireboltPermissions(
            l,
        ) && (R::obeys_registry_spec() ==> l@ == reg.spec_permissions_from_ref(granted)),
        PermissionRequestPayload::ListMethods => r matches PermissionResponse::List(l) && views(l@) == granted,
    }
}

/// How many times the permission service is asked before a request fails.
pub open spec fn max_permission_attempts() -> u32 {
    3
}

/// Whether a failed attempt is followed by another: only after a time-out,
/// and only while fewer than the allowed number of attempts were made.
pub open spec fn retries(attempt: u32, err: ThorPermissionError) -> bool {
    attempt < max_permission_attempts() && err is TimedOutError
}

/// What follows an attempt to read the permissions of an application.
pub enum PermissionStep {
    Respond(Result<PermissionResponse, DpabError>),
    Retry,
}

/// The permission service: the registry, with the permissions that it
/// registered when the service was made.
pub struct ThorPermissionService<R: FireboltPermissionRegistry> {
    pub permission_registry: R,
    pub permissions: Vec<FireboltPermission>,
}

impl<R: FireboltPermissionRegistry> ThorPermissionService<R> {
    /// A service over `permission_registry`.
    pub fn new_from(permission_registry: R) -> (r: ThorPermissionService<R>)
        ensures
            r.permission_registry == permission_registry,
            R::obeys_registry_spec() ==> r.permissions@ == permission_registry.spec_permissions(),
    {
        let permissions = permission_registry.permissions();
        ThorPermissionService { permission_registry, permissions }
    }

    /// The ids of the registered permissions that grant the platform method `firebolt_api`.
    pub fn firebolt_api_to_tp_api(&self, firebolt_api: &String) -> (r: Vec<String>)
        ensures
            views(r@) == api_permission_ids(self.permissions@, firebolt_api@),
    {
        permissions_for_api(&self.permissions, firebolt_api)
    }

    /// The ids of the registered permissions that grant `capability` in `role`.
    pub fn firebolt_cap_to_tp_api(&self, capability: &String, role: &Role) -> (r: Vec<String>)
        ensures
            views(r@) == cap_permission_ids(self.permissions@, capability@, *role),
    {
        permissions_for_capability(&self.permissions, capability, *role)
    }

    /// Whether the permissions `granted_thor_permissions` grant `capability` in
    /// `role`: some registered permission that grants it is among them.
    pub fn check_if_capability_granted(&self, capability: String, role: Role, granted_thor_permissions: Vec<String>) -> (r: bool)
        ensures
            r == capability_granted(self.permissions@, capability@, role, views(granted_thor_permissions@)),
    {
        let tp_permissions = self.firebolt_cap_to_tp_api(&capability, &role);
        if tp_permissions.len() == 0 {
            false
        } else {
            any_granted(&tp_permissions, &granted_thor_permissions)
        }
    }

    /// The answer to a request to call a platform method (or, where the request
    /// names one, to use a capability) for an application that holds
    /// `granted_thor_permissions`.
    pub fn is_app_authorized_for_api(&self, request: ApiGrantRequest, granted_thor_permissions: Vec<String>) -> (r: ApiGrantResponse)
        ensures
            r.request == request,
            r.outcome == api_outcome(
                request.requested_grant,
                match request.capability {
                    Some(c) => cap_permission_ids(self.permissions@, c@, Role::Use),
                    None => api_permission_ids(self.permissions@, request.api_name@),
                },
                views(granted_thor_permissions@),
            ),
    {
        let tp_permissions = match &request.capability {
            Some(capability) => self.firebolt_cap_to_tp_api(capability, &Role::Use),
            None => self.firebolt_api_to_tp_api(&request.api_name),
        };
        api_grant_response(request, &tp_permissions, &granted_thor_permissions)
    }

    /// The answer to `payload` for an application that holds `permissions`.
    pub fn permission_response(&self, payload: PermissionRequestPayload, permissions: Vec<String>) -> (r: PermissionResponse)
        ensures
            answers(&self.permission_registry, self.permissions@, payload, views(permissions@), r),
    {
        match payload {
            PermissionRequestPayload::Check(p) => {
                let role = match p.role {
                    Some(role) => role,
                    None => Role::Use,
                };
                let cap = match p.get() {
                    Some(c) => c,
                    None => String::new(),
                };
                PermissionResponse::Check(self.check_if_capability_granted(cap, role, permissions))
            },
            PermissionRequestPayload::CheckAll(params) => {
                let mut map: TextMap<bool> = TextMap::new();
                let mut i: usize = 0;
                while i < params.len()
                    invariant
                        i <= params@.len(),
                        map.wf(),
                        map@ == check_all_map(self.permissions@, params@.take(i as int), views(permissions@)),
                    decreases params@.len() - i,
                {
                    assert(params@.take(i + 1).drop_last() =~= params@.take(i as int));
                    assert(params@.take(i + 1).last() == params@[i as int]);
                    let p = &params[i];
                    let role = match p.role {
                        Some(role) => role,
                        None => Role::Use,
                    };
                    let v = match p.get() {
                        Some(c) => c,
                        None => String::new(),
                    };
                    let granted = self.check_if_capability_granted(v.clone(), role, copy_strings(&permissions));
                    map.insert(v, granted);
                    i = i + 1;
                }
                assert(params@.take(params@.len() as int) =~= params@);
                PermissionResponse::CheckAllCaps(map)
            },
            PermissionRequestPayload::ListCaps => {
                PermissionResponse::List(self.permission_registry.get_firebolt_caps_from_ref(permissions))
            },
            PermissionRequestPayload::ListFireboltPermissions => {
                PermissionResponse::FireboltPermissions(
                    self.permission_registry.get_firebolt_permissions_from_ref(permissions),
                )
            },
            PermissionRequestPayload::ListMethods => PermissionResponse::List(permissions),
        }
    }

    /// What follows attempt number `attempt` (counting from one) to read the
    /// permissions of the application: the answer when they were read;
    /// another attempt after a time-out while fewer than three were made;
    /// else the I/O error.
    pub fn handle_permission(
        &self,
        payload: PermissionRequestPayload,
        attempt: u32,
        result: Result<Vec<String>, ThorPermissionError>,
    ) -> (r: PermissionStep)
        ensures
            match result {
                Ok(granted) => r matches PermissionStep::Respond(Ok(resp)) && answers(
                    &self.permission_registry,
                    self.permissions@,
                    payload,
                    views(granted@),
                    resp,
                ),
                Err(e) => if retries(attempt, e) {
                    r is Retry
                } else {
                    r matches PermissionStep::Respond(Err(x)) && x == DpabError::IoError
                },
            },
    {
        match result {
            Ok(granted) => PermissionStep::Respond(Ok(self.permission_response(payload, granted))),
            Err(ThorPermissionError::TimedOutError) => {
                if attempt < 3 {
                    PermissionStep::Retry
                } else {
                    PermissionStep::Respond(Err(DpabError::IoError))
                }
            },
            Err(_) => PermissionStep::Respond(Err(DpabError::IoError)),
        }
    }
}

/// A permission request never leads to more than three calls of the
/// permission service: after the third failed attempt no other follows.
pub proof fn law_permission_attempts_bounded(attempt: u32, err: ThorPermissionError)
    requires
        attempt >= max_permission_attempts(),
    ensures
        !retries(attempt, err),
{
}

/// Only a time-out is followed by another attempt.
pub proof fn law_only_timeouts_retry(attempt: u32, err: ThorPermissionError)
    requires
        !(err is TimedOutError),
    ensures
        !retries(attempt, err),
{
}


/// Holding one of the permission ids that grant a capability is enough: the
/// check answers granted, however many other ids grant it too; an application
/// asking to call a platform method is then allowed the access it asked for.
pub proof fn law_one_alias_grants(
    requested: Seq<Seq<char>>,
    allowed: Seq<Seq<char>>,
    id: Seq<char>,
    requested_grant: ApiRequestedGrantType,
)
    requires
        requested.contains(id),
        allowed.contains(id),
    ensures
        granted_by(requested, allowed),
        api_outcome(requested_grant, requested, allowed) == (AuthorizationOutCome {
            grant_type: requested_grant,
            disposition: AuthorizationDisposition::Allowed,
        }),
{
    let i = choose|i: int| 0 <= i < requested.len() && requested[i] == id;
    assert(allowed.contains(requested[i]));
}

/// Holding none of the permission ids that grant a capability is a denial:
/// the check answers not granted, and the access is denied.
pub proof fn law_no_alias_denies(
    requested: Seq<Seq<char>>,
    allowed: Seq<Seq<char>>,
    requested_grant: ApiRequestedGrantType,
)
    requires
        forall|i: int| 0 <= i < requested.len() ==> !allowed.contains(#[trigger] requested[i]),
    ensures
        !granted_by(requested, allowed),
        api_outcome(requested_grant, requested, allowed) == (AuthorizationOutCome {
            grant_type: ApiRequestedGrantType::Denied,
            disposition: AuthorizationDisposition::Denied,
        }),
{
}

/// A capability is granted to an application exactly when it holds at least
/// one of the registered permission ids that grant the capability in that role.
pub proof fn law_capability_granted_by_any_alias(
    perms: Seq<FireboltPermission>,
    cap: Seq<char>,
    role: Role,
    granted: Seq<Seq<char>>,
)
    ensures
        capability_granted(perms, cap, role, granted) == (exists|id: Seq<char>|
            cap_permission_ids(perms, cap, role).contains(id) && #[trigger] granted.contains(id)),
{
    let ids = cap_permission_ids(perms, cap, role);
    if capability_granted(perms, cap, role, granted) {
        let i = choose|i: int| 0 <= i < ids.len() && granted.contains(#[trigger] ids[i]);
        assert(ids.contains(ids[i]) && granted.contains(ids[i]));
    }
    if exists|id: Seq<char>| ids.contains(id) && #[trigger] granted.contains(id) {
        let id = choose|id: Seq<char>| ids.contains(id) && #[trigger] granted.contains(id);
        let i = choose|i: int| 0 <= i < ids.len() && ids[i] == id;
        assert(granted.contains(ids[i]));
    }
}
} // verus!
