use dpab_appsanity::governance::{
    DataGovernanceRequestType, DataGovernanceResponsePayload, SetProperty, XVPPlugin, XVPPrivacyChannel,
    XvpPrivacyRpcImpl,
};

#[test]
fn test_channel() {
    let mut s = XVPPrivacyChannel::default();
    match s.handle(DataGovernanceRequestType::SetOptOut("someValue".into())) {
        DataGovernanceResponsePayload::Bool(b) => assert!(b),
        _ => panic!("set failure"),
    }
    assert!(s.has_opt_out());
    match s.handle(DataGovernanceRequestType::GetOptOut) {
        DataGovernanceResponsePayload::String(s) => assert_eq!(s, String::from("someValue")),
        _ => panic!("get failure"),
    }
}

#[test]
fn new_channel_has_no_opt_out() {
    let s = XVPPrivacyChannel::default();
    assert!(!s.has_opt_out());
}

#[test]
fn later_write_wins() {
    let mut s = XVPPrivacyChannel::default();
    s.handle(DataGovernanceRequestType::SetOptOut("first".into()));
    s.handle(DataGovernanceRequestType::SetOptOut("second".into()));
    match s.handle(DataGovernanceRequestType::GetOptOut) {
        DataGovernanceResponsePayload::String(v) => assert_eq!(v, "second"),
        _ => panic!("get failure"),
    }
}

#[test]
fn rpc_answers_text_or_none() {
    assert_eq!(
        XvpPrivacyRpcImpl::opt_out_answer(Some(DataGovernanceResponsePayload::String("v".into()))),
        "v"
    );
    assert_eq!(XvpPrivacyRpcImpl::opt_out_answer(Some(DataGovernanceResponsePayload::Bool(true))), "none");
    assert_eq!(XvpPrivacyRpcImpl::opt_out_answer(None), "none");
}

#[test]
fn rpc_requests_forward_value() {
    match XvpPrivacyRpcImpl::set_opt_out_request(SetProperty { value: "x".into() }) {
        DataGovernanceRequestType::SetOptOut(v) => assert_eq!(v, "x"),
        _ => panic!("wrong request"),
    }
    assert!(matches!(XvpPrivacyRpcImpl::get_opt_out_request(), DataGovernanceRequestType::GetOptOut));
}

#[test]
fn plugin_name() {
    assert_eq!(XVPPlugin {}.name(), "xvp");
}
