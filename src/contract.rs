use vstd::prelude::*;
use vstd::string::*;

use crate::error::ContractError;
use crate::msg::{HandleMsg, QueryMsg, ReceiverResponse};
use crate::state::{same_address, State};
use crate::types::{is_empty_response, log, BankMsg, Coin, Env, LogAttribute, Response};

verus! {

/// What the host's address converter answered for the addresses that one call
/// involves. A field that the call does not read may hold anything.
pub struct Conversions {
    /// The caller, in canonical form.
    pub sender: Result<Vec<u8>, ContractError>,
    /// The receiver named by the message, in canonical form.
    pub receiver: Result<Vec<u8>, ContractError>,
    /// The stored receiver, in human-readable form.
    pub stored_receiver: Result<String, ContractError>,
}

/// The denomination whose presence lets funds through.
pub open spec fn stable_denom() -> Seq<char> {
    "uusd"@
}

/// A coin of the stable denomination with a positive amount.
pub open spec fn qualifies(c: Coin) -> bool {
    c.denom@ == stable_denom() && c.amount > 0
}

/// Some attached coin qualifies.
pub open spec fn has_qualifying_funds(funds: Seq<Coin>) -> bool {
    exists|i: int| 0 <= i < funds.len() && qualifies(#[trigger] funds[i])
}

/// The record that instantiation stores, or the error it fails with. The
/// receiver's conversion is looked at before the caller's.
pub open spec fn init_outcome(
    sender: Result<Vec<u8>, ContractError>,
    receiver: Result<Vec<u8>, ContractError>,
) -> Result<State, ContractError> {
    match receiver {
        Err(e) => Err(e),
        Ok(r) => match sender {
            Err(e) => Err(e),
            Ok(o) => Ok(State { owner: o, receiver: r }),
        },
    }
}

/// The human-readable receiver that a send goes to, or the error it fails with.
pub open spec fn tokensend_outcome(
    store: Option<State>,
    funds: Seq<Coin>,
    stored_receiver: Result<String, ContractError>,
) -> Result<String, ContractError> {
    if !has_qualifying_funds(funds) {
        Err(ContractError::Validation)
    } else if store is None {
        Err(ContractError::StateNotFound)
    } else {
        stored_receiver
    }
}

/// The record after a reset of the receiver to `receiver`, or the error it fails with.
pub open spec fn reset_outcome(
    store: Option<State>,
    sender: Result<Vec<u8>, ContractError>,
    receiver: Vec<u8>,
) -> Result<State, ContractError> {
    match store {
        None => Err(ContractError::StateNotFound),
        Some(s) => match sender {
            Err(e) => Err(e),
            Ok(c) => if c@ == s.owner@ {
                Ok(State { owner: s.owner, receiver })
            } else {
                Err(ContractError::Unauthorized)
            },
        },
    }
}

/// The answer to a receiver query.
pub open spec fn query_outcome(
    store: Option<State>,
    stored_receiver: Result<String, ContractError>,
) -> Result<ReceiverResponse, ContractError> {
    match store {
        None => Err(ContractError::StateNotFound),
        Some(_) => match stored_receiver {
            Err(e) => Err(e),
            Ok(h) => Ok(ReceiverResponse { receiver: h }),
        },
    }
}

/// The stored record after a call; unchanged on every failure.
pub open spec fn committed<T>(store: Option<State>, outcome: Result<State, T>) -> Option<State> {
    match outcome {
        Ok(s) => Some(s),
        Err(_) => store,
    }
}

/// The record a reset would store, once the new receiver's conversion is known.
pub open spec fn handle_reset_outcome(store: Option<State>, conv: Conversions) -> Result<State, ContractError> {
    match conv.receiver {
        Err(e) => Err(e),
        Ok(r) => reset_outcome(store, conv.sender, r),
    }
}

/// The stored record after handling `msg`.
pub open spec fn handle_store(store: Option<State>, msg: HandleMsg, conv: Conversions) -> Option<State> {
    match msg {
        HandleMsg::TokenSend {  } => store,
        HandleMsg::ResetReceiver { .. } => committed(store, handle_reset_outcome(store, conv)),
    }
}

/// `resp` moves `funds` from `from` to `to` in one transfer and logs the send.
pub open spec fn is_send_response(resp: Response, from: Seq<char>, to: Seq<char>, funds: Vec<Coin>) -> bool {
    &&& resp.messages@.len() == 1
    &&& resp.messages@[0] matches BankMsg::Send { from_address, to_address, amount }
        && from_address@ == from && to_address@ == to && amount == funds
    &&& resp.log@.len() == 2
    &&& resp.log@[0].key@ == "action"@
    &&& resp.log@[0].value@ == "send"@
    &&& resp.log@[1].key@ == "recipient"@
    &&& resp.log@[1].value@ == to
}

/// Whether the attached funds hold a positive amount of the stable denomination.
fn has_stable_funds(funds: &Vec<Coin>) -> (r: bool)
    ensures
        r == has_qualifying_funds(funds@),
{
    let denom = String::from_str("uusd");
    let mut i: usize = 0;
    while i < funds.len()
        invariant
            denom@ == stable_denom(),
            0 <= i <= funds@.len(),
            forall|j: int| 0 <= j < i ==> !qualifies(#[trigger] funds@[j]),
        decreases funds@.len() - i,
    {
        if funds[i].denom == denom && funds[i].amount > 0 {
            assert(qualifies(funds@[i as int]));
            return true;
        }
        i += 1;
    }
    false
}

/// Instantiates the contract: stores the caller as owner and the message's
/// receiver, both in canonical form. Nothing is stored on failure.
pub fn init(store: &mut Option<State>, conv: Conversions) -> (r: Result<Response, ContractError>)
    ensures
        *final(store) == committed(*old(store), init_outcome(conv.sender, conv.receiver)),
        match init_outcome(conv.sender, conv.receiver) {
            Ok(_) => r is Ok && is_empty_response(r->Ok_0),
            Err(e) => r == Err::<Response, ContractError>(e),
        },
{
    let receiver = match conv.receiver {
        Ok(c) => c,
        Err(e) => return Err(e),
    };
    let owner = match conv.sender {
        Ok(c) => c,
        Err(e) => return Err(e),
    };
    *store = Some(State { owner, receiver });
    Ok(Response::empty())
}

/// Forwards all attached funds to the stored receiver, provided they hold a
/// positive amount of the stable denomination. `stored_receiver` is the
/// converter's answer for the stored receiver.
pub fn try_tokensend(store: &Option<State>, env: Env, stored_receiver: Result<String, ContractError>) -> (r:
    Result<Response, ContractError>)
    ensures
        match tokensend_outcome(*store, env.sent_funds@, stored_receiver) {
            Ok(to) => r is Ok && is_send_response(r->Ok_0, env.contract_address@, to@, env.sent_funds),
            Err(e) => r == Err::<Response, ContractError>(e),
        },
{
    if !has_stable_funds(&env.sent_funds) {
        return Err(ContractError::Validation);
    }
    if store.is_none() {
        return Err(ContractError::StateNotFound);
    }
    let recipient = match stored_receiver {
        Ok(h) => h,
        Err(e) => return Err(e),
    };
    let mut entries: Vec<LogAttribute> = Vec::new();
    entries.push(log("action", "send"));
    entries.push(log("recipient", recipient.as_str()));
    let mut messages: Vec<BankMsg> = Vec::new();
    messages.push(
        BankMsg::Send { from_address: env.contract_address, to_address: recipient, amount: env.sent_funds },
    );
    Ok(Response { messages, log: entries })
}

/// Replaces the stored receiver with `receiver` (canonical form) when the caller,
/// whose canonical form is `sender`, is the owner. The record is left as it was
/// on every failure.
pub fn try_reset(store: &mut Option<State>, sender: Result<Vec<u8>, ContractError>, receiver: Vec<u8>) -> (r:
    Result<Response, ContractError>)
    ensures
        *final(store) == committed(*old(store), reset_outcome(*old(store), sender, receiver)),
        match reset_outcome(*old(store), sender, receiver) {
            Ok(_) => r is Ok && is_empty_response(r->Ok_0),
            Err(e) => r == Err::<Response, ContractError>(e),
        },
        r is Err ==> *final(store) == *old(store),
{
    match store {
        None => Err(ContractError::StateNotFound),
        Some(s) => {
            let caller = match sender {
                Ok(c) => c,
                Err(e) => return Err(e),
            };
            if !same_address(&caller, &s.owner) {
                return Err(ContractError::Unauthorized);
            }
            s.receiver = receiver;
            Ok(Response::empty())
        },
    }
}

/// Routes an operation to its handler. For a reset, the message's receiver
/// is taken in the canonical form given in `conv.receiver`.
pub fn handle(store: &mut Option<State>, env: Env, msg: HandleMsg, conv: Conversions) -> (r: Result<
    Response,
    ContractError,
>)
    ensures
        *final(store) == handle_store(*old(store), msg, conv),
        r is Err ==> *final(store) == *old(store),
        msg is TokenSend ==> match tokensend_outcome(*old(store), env.sent_funds@, conv.stored_receiver) {
            Ok(to) => r is Ok && is_send_response(r->Ok_0, env.contract_address@, to@, env.sent_funds),
            Err(e) => r == Err::<Response, ContractError>(e),
        },
        msg is ResetReceiver ==> match handle_reset_outcome(*old(store), conv) {
            Ok(_) => r is Ok && is_empty_response(r->Ok_0),
            Err(e) => r == Err::<Response, ContractError>(e),
        },
{
    match msg {
        HandleMsg::TokenSend {  } => try_tokensend(store, env, conv.stored_receiver),
        HandleMsg::ResetReceiver { .. } => {
            let receiver = match conv.receiver {
                Ok(c) => c,
                Err(e) => return Err(e),
            };
            try_reset(store, conv.sender, receiver)
        },
    }
}

/// Answers a read-only request. `stored_receiver` is the converter's answer for
/// the stored receiver.
pub fn query(store: &Option<State>, msg: QueryMsg, stored_receiver: Result<String, ContractError>) -> (r:
    Result<ReceiverResponse, ContractError>)
    ensures
        r == query_outcome(*store, stored_receiver),
{
    match msg {
        QueryMsg::GetReceiver {  } => query_receiver(store, stored_receiver),
    }
}

fn query_receiver(store: &Option<State>, stored_receiver: Result<String, ContractError>) -> (r: Result<
    ReceiverResponse,
    ContractError,
>)
    ensures
        r == query_outcome(*store, stored_receiver),
{
    if store.is_none() {
        return Err(ContractError::StateNotFound);
    }
    match stored_receiver {
        Ok(h) => Ok(ReceiverResponse { receiver: h }),
        Err(e) => Err(e),
    }
}

} // verus!
