use vstd::prelude::*;

verus! {

/// Instantiation request: the human-readable address that funds are forwarded to.
#[derive(Clone, Debug, PartialEq)]
pub struct InitMsg {
    pub receiver: String,
}

/// Operation requests.
#[derive(Clone, Debug, PartialEq)]
pub enum HandleMsg {
    /// Forward the funds attached to the call to the current receiver.
    TokenSend {},
    /// Replace the receiver; only the owner may do so.
    ResetReceiver { receiver: String },
}

/// Read-only requests.
#[derive(Clone, Debug, PartialEq)]
pub enum QueryMsg {
    /// The current receiver, in human-readable form.
    GetReceiver {},
}

/// Answer to `QueryMsg::GetReceiver`.
#[derive(Clone, Debug, PartialEq)]
pub struct ReceiverResponse {
    pub receiver: String,
}

} // verus!
