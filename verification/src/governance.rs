use vstd::prelude::*;

use crate::config::opt_view;

verus! {

/// The calls of the data governance channel.
pub enum DataGovernanceRequestType {
    GetOptOut,
    SetOptOut(String),
}

/// The answers of the data governance channel.
pub enum DataGovernanceResponsePayload {
    String(String),
    Bool(bool),
}

/// The data governance channel of the platform: it keeps the opt-out value
/// that was last set.
pub struct XVPPrivacyChannel {
    opt_out: Option<String>,
}

impl XVPPrivacyChannel {
    /// The opt-out value kept, if one was set.
    pub closed spec fn kept(&self) -> Option<Seq<char>> {
        opt_view(self.opt_out)
    }

    /// A channel with no opt-out value.
    pub fn default() -> (r: XVPPrivacyChannel)
        ensures
            r.kept() is None,
    {
        XVPPrivacyChannel { opt_out: None }
    }

    /// Whether a value can be read: an opt-out value was set.
    pub fn has_opt_out(&self) -> (r: bool)
        ensures
            r == self.kept() is Some,
    {
        self.opt_out.is_some()
    }

    /// Answers a call: the value kept for a read, which needs one to have been
    /// set; `true` for a write, whose value is kept.
    pub fn handle(&mut self, request: DataGovernanceRequestType) -> (r: DataGovernanceResponsePayload)
        requires
            request is GetOptOut ==> old(self).kept() is Some,
        ensures
            handles(*old(self), request, *final(self), r),
    {
        match request {
            DataGovernanceRequestType::GetOptOut => match &self.opt_out {
                Some(s) => DataGovernanceResponsePayload::String(s.clone()),
                None => DataGovernanceResponsePayload::String(String::new()),
            },
            DataGovernanceRequestType::SetOptOut(v) => {
                self.opt_out = Some(v);
                DataGovernanceResponsePayload::Bool(true)
            },
        }
    }
}

/// What a call of [`XVPPrivacyChannel::handle`] does: on a read, the channel
/// stays as it was and answers the kept value; on a write, the value is kept
/// and the answer is `true`.
pub open spec fn handles(
    before: XVPPrivacyChannel,
    request: DataGovernanceRequestType,
    after: XVPPrivacyChannel,
    r: DataGovernanceResponsePayload,
) -> bool {
    match request {
        DataGovernanceRequestType::GetOptOut => {
            &&& after.kept() == before.kept()
            &&& r matches DataGovernanceResponsePayload::String(s) && before.kept() == Some(s@)
        },
        DataGovernanceRequestType::SetOptOut(v) => {
            &&& after.kept() == Some(v@)
            &&& r matches DataGovernanceResponsePayload::Bool(b) && b
        },
    }
}

/// A read of the opt-out value gives back what the last write wrote: when a
/// channel handles a write of `value` and then a read, the read answers `value`
/// and the channel still keeps it.
pub proof fn law_opt_out_read_after_write(
    c0: XVPPrivacyChannel,
    value: String,
    c1: XVPPrivacyChannel,
    r1: DataGovernanceResponsePayload,
    c2: XVPPrivacyChannel,
    r2: DataGovernanceResponsePayload,
)
    requires
        handles(c0, DataGovernanceRequestType::SetOptOut(value), c1, r1),
        handles(c1, DataGovernanceRequestType::GetOptOut, c2, r2),
    ensures
        r2 matches DataGovernanceResponsePayload::String(s) && s@ == value@,
        c2.kept() == Some(value@),
{
}

/// The value of a request to set the opt-out value.
pub struct SetProperty {
    pub value: String,
}

/// The value of a request to set the opt-out value (older form).
pub struct SetBoolProperty {
    pub value: String,
}

/// The remote calls of the privacy extension, answered through the data
/// governance channel.
pub struct XvpPrivacyRpcImpl {}

impl XvpPrivacyRpcImpl {
    /// The answer to a remote call from what the channel answered (`None` when
    /// it did not): the text of a text answer, else "none".
    pub fn opt_out_answer(response: Option<DataGovernanceResponsePayload>) -> (r: String)
        ensures
            match response {
                Some(DataGovernanceResponsePayload::String(s)) => r@ == s@,
                _ => r@ == "none"@,
            },
    {
        match response {
            Some(DataGovernanceResponsePayload::String(s)) => s,
            _ => "none".to_owned(),
        }
    }

    /// The channel call of a request to read the opt-out value.
    pub fn get_opt_out_request() -> (r: DataGovernanceRequestType)
        ensures
            r is GetOptOut,
    {
        DataGovernanceRequestType::GetOptOut
    }

    /// The channel call of a request to set the opt-out value.
    pub fn set_opt_out_request(value: SetProperty) -> (r: DataGovernanceRequestType)
        ensures
            r matches DataGovernanceRequestType::SetOptOut(v) && v@ == value.value@,
    {
        DataGovernanceRequestType::SetOptOut(value.value)
    }
}

/// The platform plugin of the distributor.
pub struct XVPPlugin {}

impl XVPPlugin {
    /// The name of the plugin.
    pub fn name(&self) -> (r: &'static str)
        ensures
            r@ == "xvp"@,
    {
        "xvp"
    }
}

} // verus!
