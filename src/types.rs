use vstd::prelude::*;

verus! {

/// An amount of one denomination attached to a call or moved by a transfer.
#[derive(Clone, Debug, PartialEq)]
pub struct Coin {
    pub denom: String,
    pub amount: u128,
}

/// The per-call context that the host supplies.
#[derive(Clone, Debug, PartialEq)]
pub struct Env {
    /// The caller, in human-readable form.
    pub sender: String,
    /// This contract's own address, in human-readable form.
    pub contract_address: String,
    /// The funds that the caller attached, in the order the host gave them.
    pub sent_funds: Vec<Coin>,
}

/// An outgoing instruction to the bank module.
#[derive(Clone, Debug, PartialEq)]
pub enum BankMsg {
    Send { from_address: String, to_address: String, amount: Vec<Coin> },
}

/// One key/value log entry of a response.
#[derive(Clone, Debug, PartialEq)]
pub struct LogAttribute {
    pub key: String,
    pub value: String,
}

/// What a successful mutating call hands back to the host.
#[derive(Clone, Debug, PartialEq)]
pub struct Response {
    pub messages: Vec<BankMsg>,
    pub log: Vec<LogAttribute>,
}

/// A response with no messages and no log entries.
pub open spec fn is_empty_response(r: Response) -> bool {
    &&& r.messages@.len() == 0
    &&& r.log@.len() == 0
}

impl Response {
    pub fn empty() -> (r: Response)
        ensures
            is_empty_response(r),
    {
        Response { messages: Vec::new(), log: Vec::new() }
    }
}

/// Makes a log entry from two string slices.
pub fn log(key: &str, value: &str) -> (r: LogAttribute)
    ensures
        r.key@ == key@,
        r.value@ == value@,
{
    LogAttribute { key: key.to_string(), value: value.to_string() }
}

} // verus!
