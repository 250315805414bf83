use dpab_appsanity::model::{DistributorSession, DpabError, Role};
use dpab_appsanity::permission::{
    ApiGrantRequest, ApiRequestedGrantType, AuthorizationDisposition, CapabilityRole,
    CapabilityRoleList, FireboltPermission, FireboltPermissionRegistry, PermissionRequest,
    PermissionRequestParam, PermissionRequestPayload, PermissionResponse, PermissionStep,
    ThorPermissionError, ThorPermissionService,
};

const MOCK_PERMISSION_STATE: &[&str] = &[
    "xrn:superman:capability:strength:super",
    "xrn:superman:capability:light:speed",
    "xrn:superman:capability:navigation:flight",
];

struct SupermanPermissionRegistry;

impl FireboltPermissionRegistry for SupermanPermissionRegistry {
    fn permissions(&self) -> Vec<FireboltPermission> {
        MOCK_PERMISSION_STATE
            .iter()
            .map(|c| FireboltPermission {
                capability: CapabilityRoleList {
                    use_caps: vec![String::from(*c)],
                    manage_caps: vec![],
                    provide_caps: vec![],
                },
                apis: vec![],
                description: "".into(),
                display_name: String::from(*c),
                id: String::from(*c),
                provider: "Superman Provider".into(),
            })
            .collect()
    }

    fn get_firebolt_caps_from_ref(&self, ids: Vec<String>) -> Vec<String> {
        MOCK_PERMISSION_STATE
            .iter()
            .filter(|p| ids.contains(&String::from(**p)))
            .map(|p| String::from(*p))
            .collect()
    }

    fn get_firebolt_permissions_from_ref(&self, ids: Vec<String>) -> Vec<CapabilityRole> {
        self.get_firebolt_caps_from_ref(ids)
            .into_iter()
            .map(|c| CapabilityRole { cap: c, role: Role::Use })
            .collect()
    }
}

fn get_session() -> DistributorSession {
    DistributorSession {
        account_id: "1234".into(),
        device_id: "2345".into(),
        id: "3456".into(),
        token: "4567".into(),
    }
}

fn get_request(p: PermissionRequestPayload) -> PermissionRequest {
    PermissionRequest { app_id: "superman_app".into(), session: get_session(), payload: p }
}

fn setup_superman() -> ThorPermissionService<SupermanPermissionRegistry> {
    ThorPermissionService::new_from(SupermanPermissionRegistry)
}

fn granted() -> Vec<String> {
    MOCK_PERMISSION_STATE.iter().map(|f| String::from(*f)).collect()
}

fn get_check_request(s: String) -> PermissionRequest {
    get_request(PermissionRequestPayload::Check(PermissionRequestParam {
        capability: Some(s),
        method: None,
        role: None,
    }))
}

fn answer(service: &ThorPermissionService<SupermanPermissionRegistry>, request: PermissionRequest) -> PermissionResponse {
    match service.handle_permission(request.payload, 1, Ok(granted())) {
        PermissionStep::Respond(Ok(r)) => r,
        _ => panic!("invalid response"),
    }
}

#[test]
fn test_success_check() {
    let new_test = setup_superman();
    match answer(&new_test, get_check_request("xrn:superman:capability:navigation:flight".into())) {
        PermissionResponse::Check(l) => {
            if !l {
                panic!("failed")
            }
        }
        _ => panic!("failed"),
    }
}

#[test]
fn test_fail_check() {
    let new_test = setup_superman();
    match answer(&new_test, get_check_request("xrn:superman:capability:navigation:webslinging".into())) {
        PermissionResponse::Check(l) => {
            if l {
                panic!("failed")
            }
        }
        _ => panic!("failed"),
    }
}

#[test]
fn test_check_multiple() {
    let new_test = setup_superman();
    let r = get_request(PermissionRequestPayload::CheckAll(vec![
        PermissionRequestParam {
            capability: None,
            method: Some("xrn:superman:capability:navigation:webslinging".into()),
            role: None,
        },
        PermissionRequestParam {
            capability: None,
            method: Some("xrn:superman:capability:navigation:flight".into()),
            role: None,
        },
        PermissionRequestParam {
            capability: None,
            method: Some("xrn:superman:capability:strength:super".into()),
            role: None,
        },
    ]));
    match answer(&new_test, r) {
        PermissionResponse::CheckAllCaps(l) => {
            assert_eq!(l.get("xrn:superman:capability:navigation:webslinging").unwrap(), &false);
            assert_eq!(l.get("xrn:superman:capability:navigation:flight").unwrap(), &true);
            assert_eq!(l.get("xrn:superman:capability:strength:super").unwrap(), &true);
        }
        _ => panic!("failed"),
    }
}

#[test]
fn test_get_list_caps() {
    let new_test = setup_superman();
    let r = get_request(PermissionRequestPayload::ListCaps);
    match answer(&new_test, r) {
        PermissionResponse::List(caps) => {
            assert_eq!(caps.len(), 3);
            assert!(caps.contains(&"xrn:superman:capability:navigation:flight".into()));
            assert!(!caps.contains(&"xrn:superman:capability:navigation:webslinging".into()));
        }
        _ => panic!("failed"),
    }
}

#[test]
fn test_app_authorized() {
    let test_thor_permission = setup_superman();
    let request = ApiGrantRequest {
        app_id: String::from("amazonPrime"),
        partner_id: String::from("xglobal"),
        api_name: String::from("account.uid"),
        requested_grant: ApiRequestedGrantType::ReadOnly,
        capability: None,
    };
    let mut granted_thor_permissions = Vec::with_capacity(1);
    granted_thor_permissions.push(String::from("true"));
    let r = test_thor_permission.is_app_authorized_for_api(request, granted_thor_permissions);
    assert_eq!(r.outcome.disposition, AuthorizationDisposition::Denied);
    assert_eq!(r.outcome.grant_type, ApiRequestedGrantType::Denied);
}

#[test]
fn capability_request_allowed_when_a_permission_is_held() {
    let service = setup_superman();
    let request = ApiGrantRequest {
        app_id: String::from("superman_app"),
        partner_id: String::from("xglobal"),
        api_name: String::from("unused"),
        requested_grant: ApiRequestedGrantType::ReadOnly,
        capability: Some(String::from("xrn:superman:capability:light:speed")),
    };
    let r = service.is_app_authorized_for_api(request, granted());
    assert_eq!(r.outcome.disposition, AuthorizationDisposition::Allowed);
    assert_eq!(r.outcome.grant_type, ApiRequestedGrantType::ReadOnly);
    assert_eq!(r.request.app_id, "superman_app");
}

#[test]
fn capability_request_denied_when_no_permission_is_held() {
    let service = setup_superman();
    let request = ApiGrantRequest {
        app_id: String::from("superman_app"),
        partner_id: String::from("xglobal"),
        api_name: String::from("unused"),
        requested_grant: ApiRequestedGrantType::ReadOnly,
        capability: Some(String::from("xrn:superman:capability:light:speed")),
    };
    let r = service.is_app_authorized_for_api(request, vec![String::from("something else")]);
    assert_eq!(r.outcome.disposition, AuthorizationDisposition::Denied);
}

#[test]
fn capability_checked_in_role() {
    let service = setup_superman();
    assert!(service.check_if_capability_granted(
        "xrn:superman:capability:strength:super".into(),
        Role::Use,
        granted()
    ));
    assert!(!service.check_if_capability_granted(
        "xrn:superman:capability:strength:super".into(),
        Role::Manage,
        granted()
    ));
    assert!(!service.check_if_capability_granted(
        "xrn:superman:capability:strength:super".into(),
        Role::Use,
        vec![]
    ));
}

#[test]
fn capability_maps_to_permission_ids() {
    let service = setup_superman();
    let ids = service.firebolt_cap_to_tp_api(&"xrn:superman:capability:light:speed".into(), &Role::Use);
    assert_eq!(ids, vec![String::from("xrn:superman:capability:light:speed")]);
    assert!(service.firebolt_api_to_tp_api(&"anything".into()).is_empty());
}

#[test]
fn list_methods_gives_the_permissions_held() {
    let service = setup_superman();
    match answer(&service, get_request(PermissionRequestPayload::ListMethods)) {
        PermissionResponse::List(l) => assert_eq!(l, granted()),
        _ => panic!("failed"),
    }
}

#[test]
fn list_firebolt_permissions_comes_from_registry() {
    let service = setup_superman();
    match answer(&service, get_request(PermissionRequestPayload::ListFireboltPermissions)) {
        PermissionResponse::FireboltPermissions(l) => {
            assert_eq!(l.len(), 3);
            assert_eq!(l[0].role, Role::Use);
        }
        _ => panic!("failed"),
    }
}

#[test]
fn timeouts_retried_up_to_three_attempts() {
    let service = setup_superman();
    for attempt in 1..3 {
        match service.handle_permission(PermissionRequestPayload::ListMethods, attempt, Err(ThorPermissionError::TimedOutError)) {
            PermissionStep::Retry => {}
            _ => panic!("expected a retry"),
        }
    }
    match service.handle_permission(PermissionRequestPayload::ListMethods, 3, Err(ThorPermissionError::TimedOutError)) {
        PermissionStep::Respond(Err(e)) => assert_eq!(e, DpabError::IoError),
        _ => panic!("expected the I/O error"),
    }
}

#[test]
fn other_errors_not_retried() {
    let service = setup_superman();
    let step = service.handle_permission(
        PermissionRequestPayload::ListMethods,
        1,
        Err(ThorPermissionError::ServiceError { context: "down".into() }),
    );
    match step {
        PermissionStep::Respond(Err(e)) => assert_eq!(e, DpabError::IoError),
        _ => panic!("expected the I/O error"),
    }
    match service.handle_permission(PermissionRequestPayload::ListMethods, 1, Err(ThorPermissionError::IoError)) {
        PermissionStep::Respond(Err(e)) => assert_eq!(e, DpabError::IoError),
        _ => panic!("expected the I/O error"),
    }
}

#[test]
fn check_all_keeps_last_answer_for_repeated_capability() {
    let service = setup_superman();
    let r = get_request(PermissionRequestPayload::CheckAll(vec![
        PermissionRequestParam {
            capability: Some("xrn:superman:capability:light:speed".into()),
            method: None,
            role: None,
        },
        PermissionRequestParam {
            capability: Some("xrn:superman:capability:light:speed".into()),
            method: None,
            role: Some(Role::Manage),
        },
    ]));
    match answer(&service, r) {
        PermissionResponse::CheckAllCaps(l) => {
            assert_eq!(l.len(), 1);
            assert_eq!(l.get("xrn:superman:capability:light:speed"), Some(&false));
        }
        _ => panic!("failed"),
    }
}

#[test]
fn param_without_capability_or_method_asks_about_empty_capability() {
    let p = PermissionRequestParam { capability: None, method: None, role: None };
    assert_eq!(p.get(), None);
    let service = setup_superman();
    match answer(&service, get_request(PermissionRequestPayload::Check(p))) {
        PermissionResponse::Check(l) => assert!(!l),
        _ => panic!("failed"),
    }
}
